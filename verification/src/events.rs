//! The notification protocol: the daemon holds a queue of events and
//! exposes two calls — wait-next, which delivers (and re-delivers) the
//! current event without consuming it, and handled, which acknowledges
//! and discards it. A bounded or unbounded watch loop is built on the two.

use vstd::prelude::*;
use vstd::string::StringExecFns;

use crate::fmt::spec_commas;
use crate::fmt::format_u64_with_commas;
use crate::strutil::spec_dec;
use crate::strutil::u64_to_dec;

verus! {

/// A transaction outpoint.
pub struct OutPointDto {
    /// Transaction id (hex string).
    pub txid: String,
    /// Output index.
    pub vout: u32,
}

/// An event delivered by the daemon's wait-next call: one variant per
/// known kind, and a catch-all carrying only the kind label.
pub enum EventDto {
    /// A sent payment succeeded.
    PaymentSuccessful { payment_id: Option<String>, fee_paid_msat: Option<u64> },
    /// A sent payment failed.
    PaymentFailed { payment_id: Option<String> },
    /// A payment has been received.
    PaymentReceived { payment_id: Option<String>, amount_msat: u64 },
    /// A channel has been created and awaits on-chain confirmation.
    ChannelPending { funding_txo: OutPointDto },
    /// A channel is ready to be used.
    ChannelReady { user_channel_id: String },
    /// A channel has been closed.
    ChannelClosed {
        channel_id: String,
        user_channel_id: String,
        counterparty_node_id: Option<String>,
        reason: Option<String>,
    },
    /// Any other event kind, by label only.
    Other { kind: String },
}

impl Clone for OutPointDto {
    fn clone(&self) -> (r: Self)
        ensures
            r == *self,
    {
        OutPointDto { txid: self.txid.clone(), vout: self.vout }
    }
}

fn clone_opt_string(o: &Option<String>) -> (r: Option<String>)
    ensures
        r == *o,
{
    match o {
        Some(s) => Some(s.clone()),
        None => None,
    }
}

impl Clone for EventDto {
    fn clone(&self) -> (r: Self)
        ensures
            r == *self,
    {
        match self {
            EventDto::PaymentSuccessful { payment_id, fee_paid_msat } => {
                EventDto::PaymentSuccessful {
                    payment_id: clone_opt_string(payment_id),
                    fee_paid_msat: *fee_paid_msat,
                }
            },
            EventDto::PaymentFailed { payment_id } => {
                EventDto::PaymentFailed { payment_id: clone_opt_string(payment_id) }
            },
            EventDto::PaymentReceived { payment_id, amount_msat } => {
                EventDto::PaymentReceived {
                    payment_id: clone_opt_string(payment_id),
                    amount_msat: *amount_msat,
                }
            },
            EventDto::ChannelPending { funding_txo } => {
                EventDto::ChannelPending { funding_txo: funding_txo.clone() }
            },
            EventDto::ChannelReady { user_channel_id } => {
                EventDto::ChannelReady { user_channel_id: user_channel_id.clone() }
            },
            EventDto::ChannelClosed { channel_id, user_channel_id, counterparty_node_id, reason } => {
                EventDto::ChannelClosed {
                    channel_id: channel_id.clone(),
                    user_channel_id: user_channel_id.clone(),
                    counterparty_node_id: clone_opt_string(counterparty_node_id),
                    reason: clone_opt_string(reason),
                }
            },
            EventDto::Other { kind } => EventDto::Other { kind: kind.clone() },
        }
    }
}

/// An optional string shown as itself, or `"-"` when absent.
pub open spec fn spec_opt_or_dash(o: Option<String>) -> Seq<char> {
    match o {
        Some(s) => s@,
        None => "-"@,
    }
}

/// An optional msat fee shown grouped with a `" msat"` suffix, or `"-"`.
pub open spec fn spec_fee_or_dash(o: Option<u64>) -> Seq<char> {
    match o {
        Some(v) => spec_commas(v as nat) + " msat"@,
        None => "-"@,
    }
}

/// The one-line text rendering of an event.
pub open spec fn spec_event_text(ev: EventDto) -> Seq<char> {
    match ev {
        EventDto::PaymentSuccessful { payment_id, fee_paid_msat } => {
            "PaymentSuccessful payment_id="@ + spec_opt_or_dash(payment_id) + " fee_paid="@
                + spec_fee_or_dash(fee_paid_msat)
        },
        EventDto::PaymentFailed { payment_id } => {
            "PaymentFailed payment_id="@ + spec_opt_or_dash(payment_id)
        },
        EventDto::PaymentReceived { payment_id, amount_msat } => {
            "PaymentReceived payment_id="@ + spec_opt_or_dash(payment_id) + " amount="@
                + spec_commas(amount_msat as nat) + " msat"@
        },
        EventDto::ChannelPending { funding_txo } => {
            "ChannelPending funding_txo="@ + funding_txo.txid@ + seq![':'] + spec_dec(
                funding_txo.vout as nat,
            )
        },
        EventDto::ChannelReady { user_channel_id } => {
            "ChannelReady user_channel_id="@ + user_channel_id@
        },
        EventDto::ChannelClosed { channel_id, user_channel_id, counterparty_node_id, reason } => {
            "ChannelClosed user_channel_id="@ + user_channel_id@ + " channel_id="@ + channel_id@
                + " counterparty_node_id="@ + spec_opt_or_dash(counterparty_node_id) + " reason="@
                + spec_opt_or_dash(reason)
        },
        EventDto::Other { kind } => "Other kind="@ + kind@,
    }
}

fn opt_or_dash(o: &Option<String>) -> (r: String)
    ensures
        r@ == spec_opt_or_dash(*o),
{
    match o {
        Some(s) => s.clone(),
        None => "-".to_owned(),
    }
}

/// Renders an event as its one-line text form.
pub fn event_text(ev: &EventDto) -> (r: String)
    ensures
        r@ == spec_event_text(*ev),
{
    match ev {
        EventDto::PaymentSuccessful { payment_id, fee_paid_msat } => {
            let mut r = "PaymentSuccessful payment_id=".to_owned();
            r.append(opt_or_dash(payment_id).as_str());
            r.append(" fee_paid=");
            match fee_paid_msat {
                Some(v) => {
                    r.append(format_u64_with_commas(*v).as_str());
                    r.append(" msat");
                },
                None => {
                    r.append("-");
                },
            }
            proof {
                assert(r@ =~= spec_event_text(*ev));
            }
            r
        },
        EventDto::PaymentFailed { payment_id } => {
            let mut r = "PaymentFailed payment_id=".to_owned();
            r.append(opt_or_dash(payment_id).as_str());
            proof {
                assert(r@ =~= spec_event_text(*ev));
            }
            r
        },
        EventDto::PaymentReceived { payment_id, amount_msat } => {
            let mut r = "PaymentReceived payment_id=".to_owned();
            r.append(opt_or_dash(payment_id).as_str());
            r.append(" amount=");
            r.append(format_u64_with_commas(*amount_msat).as_str());
            r.append(" msat");
            proof {
                assert(r@ =~= spec_event_text(*ev));
            }
            r
        },
        EventDto::ChannelPending { funding_txo } => {
            let mut r = "ChannelPending funding_txo=".to_owned();
            r.append(funding_txo.txid.as_str());
            r.append(":");
            r.append(u64_to_dec(funding_txo.vout as u64).as_str());
            proof {
                reveal_strlit(":");
                assert(":"@ =~= seq![':']);
                assert(r@ =~= spec_event_text(*ev));
            }
            r
        },
        EventDto::ChannelReady { user_channel_id } => {
            let mut r = "ChannelReady user_channel_id=".to_owned();
            r.append(user_channel_id.as_str());
            proof {
                assert(r@ =~= spec_event_text(*ev));
            }
            r
        },
        EventDto::ChannelClosed { channel_id, user_channel_id, counterparty_node_id, reason } => {
            let mut r = "ChannelClosed user_channel_id=".to_owned();
            r.append(user_channel_id.as_str());
            r.append(" channel_id=");
            r.append(channel_id.as_str());
            r.append(" counterparty_node_id=");
            r.append(opt_or_dash(counterparty_node_id).as_str());
            r.append(" reason=");
            r.append(opt_or_dash(reason).as_str());
            proof {
                assert(r@ =~= spec_event_text(*ev));
            }
            r
        },
        EventDto::Other { kind } => {
            let mut r = "Other kind=".to_owned();
            r.append(kind.as_str());
            proof {
                assert(r@ =~= spec_event_text(*ev));
            }
            r
        },
    }
}

/// A model of the daemon's single-outstanding-notification queue: the
/// pending events in arrival order, and whether the front event has been
/// delivered without being acknowledged yet.
pub struct EventChannel {
    /// Pending events; the front is the current one.
    pub queue: Vec<EventDto>,
    /// Whether the front event was delivered and awaits acknowledgment.
    pub delivered: bool,
}

/// What one wait-next call does: it delivers the front event and consumes
/// nothing, so an unacknowledged event is delivered again.
pub open spec fn wait_next_step(pre: EventChannel, post: EventChannel, ev: EventDto) -> bool {
    &&& pre.queue@.len() > 0
    &&& post.queue@ == pre.queue@
    &&& post.delivered
    &&& ev == pre.queue@[0]
}

/// What one handled call does: it acknowledges and discards the
/// delivered front event, letting the next wait-next return a new one.
pub open spec fn handled_step(pre: EventChannel, post: EventChannel) -> bool {
    &&& pre.delivered
    &&& pre.queue@.len() > 0
    &&& post.queue@ == pre.queue@.skip(1)
    &&& !post.delivered
}

impl EventChannel {
    /// A channel holding the given pending events, none delivered yet.
    pub fn new(events: Vec<EventDto>) -> (r: EventChannel)
        ensures
            r.queue@ == events@,
            !r.delivered,
    {
        EventChannel { queue: events, delivered: false }
    }

    /// Blocks until an event exists (modelled: requires one pending) and
    /// returns the current event without consuming it.
    pub fn wait_next(&mut self) -> (ev: EventDto)
        requires
            old(self).queue@.len() > 0,
        ensures
            wait_next_step(*old(self), *final(self), ev),
    {
        self.delivered = true;
        self.queue[0].clone()
    }

    /// Acknowledges and discards the event last delivered.
    pub fn handled(&mut self)
        requires
            old(self).delivered,
            old(self).queue@.len() > 0,
        ensures
            handled_step(*old(self), *final(self)),
    {
        self.queue.remove(0);
        self.delivered = false;
        proof {
            assert(self.queue@ =~= old(self).queue@.skip(1));
        }
    }
}

/// At-least-once delivery: two consecutive wait-next calls with no
/// intervening acknowledgment return the identical event.
pub proof fn lemma_wait_next_redelivery(
    s0: EventChannel,
    s1: EventChannel,
    s2: EventChannel,
    e1: EventDto,
    e2: EventDto,
)
    requires
        wait_next_step(s0, s1, e1),
        wait_next_step(s1, s2, e2),
    ensures
        e1 == e2,
{
}

/// The bounded/unbounded watch loop's control state: how many cycles are
/// requested (none = run forever) and how many have completed.
pub struct WatchPlan {
    /// Stop after this many cycles; `None` runs until a fatal failure.
    pub count: Option<u64>,
    /// Completed wait/render/acknowledge cycles.
    pub seen: u64,
}

/// The plan after one completed cycle: the cycle counter advances
/// (saturating at its maximum), the requested count is unchanged.
pub open spec fn spec_record(p: WatchPlan) -> WatchPlan {
    WatchPlan {
        count: p.count,
        seen: if p.seen < u64::MAX {
            (p.seen + 1) as u64
        } else {
            p.seen
        },
    }
}

/// The plan after `k` completed cycles of a fresh watch.
pub open spec fn spec_plan_after(count: Option<u64>, k: nat) -> WatchPlan
    decreases k,
{
    if k == 0 {
        WatchPlan { count, seen: 0 }
    } else {
        spec_record(spec_plan_after(count, (k - 1) as nat))
    }
}

/// The outcome of one watch cycle: an event to render, or a fatal
/// wait-next failure that ends the watch.
pub enum WatchOutcome {
    Continue(EventDto),
    Fatal(String),
}

impl WatchPlan {
    /// A fresh plan: no cycles completed.
    pub fn new(count: Option<u64>) -> (r: WatchPlan)
        ensures
            r == spec_plan_after(count, 0),
    {
        WatchPlan { count, seen: 0 }
    }

    /// Whether another wait/render/acknowledge cycle is to be performed.
    pub open spec fn spec_should_fetch(&self) -> bool {
        match self.count {
            Some(n) => self.seen < n,
            None => true,
        }
    }

    /// Decides whether the watch performs another cycle: a bounded watch
    /// stops after its requested count, an unbounded one never stops here.
    pub fn should_fetch(&self) -> (r: bool)
        ensures
            r == self.spec_should_fetch(),
    {
        match self.count {
            Some(n) => self.seen < n,
            None => true,
        }
    }
}

/// Advances the watch by one cycle. A wait-next failure is fatal and
/// leaves the plan unchanged; a delivered event continues the watch. The
/// acknowledgment result `ack_ok` is deliberately ignored: acknowledgment
/// is best-effort and its failure never stops the loop, as the outcome's
/// independence from `ack_ok` states.
#[allow(unused_variables)]
pub fn watch_step(plan: &mut WatchPlan, wait_result: Result<EventDto, String>, ack_ok: bool) -> (r:
    WatchOutcome)
    ensures
        wait_result matches Err(e) ==> (r == WatchOutcome::Fatal(e) && *final(plan) == *old(plan)),
        wait_result matches Ok(ev) ==> (r == WatchOutcome::Continue(ev) && *final(plan)
            == spec_record(*old(plan))),
{
    match wait_result {
        Err(e) => WatchOutcome::Fatal(e),
        Ok(ev) => {
            if plan.seen < u64::MAX {
                plan.seen = plan.seen + 1;
            }
            WatchOutcome::Continue(ev)
        },
    }
}

/// A watch bounded by `n` performs exactly `n` cycles: after `k`
/// completed cycles the plan has counted `k` and allows another cycle
/// exactly when `k < n`.
pub proof fn lemma_watch_cycle_count(n: u64, k: nat)
    requires
        k <= n,
    ensures
        spec_plan_after(Some(n), k).count == Some(n),
        spec_plan_after(Some(n), k).seen == k,
        spec_plan_after(Some(n), k).spec_should_fetch() <==> k < n,
    decreases k,
{
    if k > 0 {
        lemma_watch_cycle_count(n, (k - 1) as nat);
    }
}

/// An unbounded watch never stops of its own accord: after any number of
/// cycles the plan allows the next one.
pub proof fn lemma_watch_unbounded(k: nat)
    ensures
        spec_plan_after(None, k).count is None,
        spec_plan_after(None, k).spec_should_fetch(),
    decreases k,
{
    if k > 0 {
        lemma_watch_unbounded((k - 1) as nat);
    }
}

} // verus!
