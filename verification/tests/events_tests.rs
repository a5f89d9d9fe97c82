use rgbldk::events::EventChannel;
use rgbldk::events::EventDto;
use rgbldk::events::OutPointDto;
use rgbldk::events::WatchOutcome;
use rgbldk::events::WatchPlan;
use rgbldk::events::event_text;
use rgbldk::events::watch_step;

fn received(pid: &str, amount: u64) -> EventDto {
    EventDto::PaymentReceived { payment_id: Some(pid.to_string()), amount_msat: amount }
}

#[test]
fn event_text_payment_successful() {
    let ev = EventDto::PaymentSuccessful {
        payment_id: Some("abc".to_string()),
        fee_paid_msat: Some(1234),
    };
    assert_eq!(event_text(&ev), "PaymentSuccessful payment_id=abc fee_paid=1,234 msat");
    let bare = EventDto::PaymentSuccessful { payment_id: None, fee_paid_msat: None };
    assert_eq!(event_text(&bare), "PaymentSuccessful payment_id=- fee_paid=-");
}

#[test]
fn event_text_payment_failed_and_received() {
    let f = EventDto::PaymentFailed { payment_id: None };
    assert_eq!(event_text(&f), "PaymentFailed payment_id=-");
    assert_eq!(
        event_text(&received("p1", 2500000)),
        "PaymentReceived payment_id=p1 amount=2,500,000 msat"
    );
}

#[test]
fn event_text_channel_events() {
    let pending = EventDto::ChannelPending {
        funding_txo: OutPointDto { txid: "deadbeef".to_string(), vout: 1 },
    };
    assert_eq!(event_text(&pending), "ChannelPending funding_txo=deadbeef:1");
    let ready = EventDto::ChannelReady { user_channel_id: "ucid1".to_string() };
    assert_eq!(event_text(&ready), "ChannelReady user_channel_id=ucid1");
    let closed = EventDto::ChannelClosed {
        channel_id: "cid".to_string(),
        user_channel_id: "ucid".to_string(),
        counterparty_node_id: None,
        reason: Some("cooperative".to_string()),
    };
    assert_eq!(
        event_text(&closed),
        "ChannelClosed user_channel_id=ucid channel_id=cid counterparty_node_id=- reason=cooperative"
    );
    let other = EventDto::Other { kind: "Unknown".to_string() };
    assert_eq!(event_text(&other), "Other kind=Unknown");
}

#[test]
fn wait_next_redelivers_until_handled() {
    let mut ch = EventChannel::new(vec![received("p1", 10), received("p2", 20)]);
    let e1 = ch.wait_next();
    let e2 = ch.wait_next();
    assert_eq!(event_text(&e1), event_text(&e2));
    ch.handled();
    let e3 = ch.wait_next();
    assert_eq!(event_text(&e3), "PaymentReceived payment_id=p2 amount=20 msat");
    assert_ne!(event_text(&e1), event_text(&e3));
}

#[test]
fn watch_counts_exact_cycles() {
    // A server that always has an event queued; the second acknowledgment
    // fails, which must not stop the loop.
    let mut plan = WatchPlan::new(Some(2));
    let mut cycles = 0u64;
    let mut acks = [true, false].iter().cycle();
    while plan.should_fetch() {
        let wait_result = Ok(received("p", 1));
        let ack_ok = *acks.next().unwrap();
        match watch_step(&mut plan, wait_result, ack_ok) {
            WatchOutcome::Continue(_) => cycles += 1,
            WatchOutcome::Fatal(_) => panic!("no fatal failure was injected"),
        }
    }
    assert_eq!(cycles, 2);
    assert_eq!(plan.seen, 2);
    assert!(!plan.should_fetch());
}

#[test]
fn watch_zero_count_never_fetches() {
    let plan = WatchPlan::new(Some(0));
    assert!(!plan.should_fetch());
}

#[test]
fn watch_unbounded_keeps_fetching() {
    let mut plan = WatchPlan::new(None);
    for _ in 0..100 {
        assert!(plan.should_fetch());
        match watch_step(&mut plan, Ok(received("p", 1)), true) {
            WatchOutcome::Continue(_) => {},
            WatchOutcome::Fatal(_) => panic!("no fatal failure was injected"),
        }
    }
    assert!(plan.should_fetch());
}

#[test]
fn watch_wait_failure_is_fatal() {
    let mut plan = WatchPlan::new(Some(5));
    let r = watch_step(&mut plan, Err("HTTP 500: boom".to_string()), true);
    match r {
        WatchOutcome::Fatal(e) => assert_eq!(e, "HTTP 500: boom"),
        WatchOutcome::Continue(_) => panic!("a wait failure must be fatal"),
    }
    assert_eq!(plan.seen, 0);
}
