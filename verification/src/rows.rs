//! Table-row construction for the text projections: every text-mode table
//! the commands show is computed here, cell by cell, from the decoded
//! response values. Drawing the table borders and printing are external.

use vstd::prelude::*;
use vstd::string::StrSliceExecFns;
use vstd::string::StringExecFns;

use crate::config::CliConfig;
use crate::dto::BalancesDto;
use crate::dto::Bolt12OfferDecodeResponse;
use crate::dto::Bolt12RefundDecodeResponse;
use crate::dto::ChannelDetailsExtendedDto;
use crate::dto::PeerDetailsDto;
use crate::dto::StatusDto;
use crate::fmt::spec_balance;
use crate::fmt::spec_commas;
use crate::fmt::spec_truncate;
use crate::fmt::format_balance_sats;
use crate::fmt::format_u64_with_commas;
use crate::fmt::truncate_id;
use crate::paywait::pair_row;
use crate::strutil::spec_dec;
use crate::strutil::str_eq;
use crate::strutil::u64_to_dec;

verus! {

/// The display text of a boolean.
pub open spec fn spec_bool_text(b: bool) -> Seq<char> {
    if b {
        "true"@
    } else {
        "false"@
    }
}

/// Renders a boolean as `true` or `false`.
pub fn bool_text(b: bool) -> (r: &'static str)
    ensures
        r@ == spec_bool_text(b),
{
    if b {
        "true"
    } else {
        "false"
    }
}

proof fn lemma_deep_push(a: Vec<Vec<String>>, b: Vec<Vec<String>>, x: Vec<String>)
    requires
        b@ == a@.push(x),
    ensures
        b.deep_view() =~= a.deep_view().push(x.deep_view()),
{
    assert(b.deep_view().len() == a.deep_view().len() + 1);
    assert forall|j: int| 0 <= j < a@.len() implies #[trigger] b.deep_view()[j]
        == a.deep_view()[j] by {
        assert(b@[j] == a@[j]);
    }
    assert(b.deep_view()[a@.len() as int] == x.deep_view());
}

fn opt_string_or_dash(o: &Option<String>) -> (r: String)
    ensures
        r@ == match *o {
            Some(s) => s@,
            None => "-"@,
        },
{
    match o {
        Some(s) => s.clone(),
        None => "-".to_owned(),
    }
}

/// An optional quantity in plain decimal, or `"-"`.
pub open spec fn spec_opt_dec_or_dash(o: Option<u64>) -> Seq<char> {
    match o {
        Some(v) => spec_dec(v as nat),
        None => "-"@,
    }
}

fn opt_dec_or_dash(o: &Option<u64>) -> (r: String)
    ensures
        r@ == spec_opt_dec_or_dash(*o),
{
    match o {
        Some(v) => u64_to_dec(*v),
        None => "-".to_owned(),
    }
}

/// An optional msat quantity grouped with commas, or `"-"`.
pub open spec fn spec_opt_commas_or_dash(o: Option<u64>) -> Seq<char> {
    match o {
        Some(v) => spec_commas(v as nat),
        None => "-"@,
    }
}

fn opt_commas_or_dash(o: &Option<u64>) -> (r: String)
    ensures
        r@ == spec_opt_commas_or_dash(*o),
{
    match o {
        Some(v) => format_u64_with_commas(*v),
        None => "-".to_owned(),
    }
}

/// Strings joined by `", "`.
pub open spec fn spec_join_comma(parts: Seq<Seq<char>>) -> Seq<char>
    decreases parts.len(),
{
    if parts.len() == 0 {
        Seq::empty()
    } else if parts.len() == 1 {
        parts[0]
    } else {
        parts[0] + ", "@ + spec_join_comma(parts.skip(1))
    }
}

fn join_comma_from(parts: &Vec<String>, i: usize) -> (r: String)
    requires
        i <= parts.len(),
    ensures
        r@ == spec_join_comma(parts.deep_view().skip(i as int)),
    decreases parts.len() - i,
{
    if i == parts.len() {
        String::new()
    } else if i + 1 == parts.len() {
        proof {
            assert(parts.deep_view().skip(i as int)[0] == parts@[i as int]@);
        }
        parts[i].clone()
    } else {
        let mut r = parts[i].clone();
        r.append(", ");
        let rest = join_comma_from(parts, i + 1);
        r.append(rest.as_str());
        proof {
            assert(parts.deep_view().skip(i as int).skip(1) =~= parts.deep_view().skip(i + 1));
            assert(r@ =~= spec_join_comma(parts.deep_view().skip(i as int)));
        }
        r
    }
}

/// Strings joined by `", "`.
pub fn join_comma(parts: &Vec<String>) -> (r: String)
    ensures
        r@ == spec_join_comma(parts.deep_view()),
{
    let r = join_comma_from(parts, 0);
    proof {
        assert(parts.deep_view().skip(0) =~= parts.deep_view());
    }
    r
}

/// The field/value rows of the node status view.
pub open spec fn spec_status_rows(s: StatusDto) -> Seq<Seq<Seq<char>>> {
    seq![
        seq!["is_running"@, spec_bool_text(s.is_running)],
        seq!["p2p_is_listening"@, spec_bool_text(s.is_listening)],
        seq!["best_block_height"@, spec_dec(s.best_block_height as nat)],
    ]
}

/// Builds the node status field/value rows.
pub fn status_rows(s: &StatusDto) -> (r: Vec<Vec<String>>)
    ensures
        r.deep_view() == spec_status_rows(*s),
{
    let mut r: Vec<Vec<String>> = Vec::new();
    r.push(pair_row("is_running", bool_text(s.is_running).to_owned()));
    r.push(pair_row("p2p_is_listening", bool_text(s.is_listening).to_owned()));
    r.push(pair_row("best_block_height", u64_to_dec(s.best_block_height as u64)));
    proof {
        assert(r.deep_view() =~~= spec_status_rows(*s));
    }
    r
}

/// The asset/balance rows of the wallet balance view, each balance
/// rendered by the sats/BTC rule (forced to sats on request).
pub open spec fn spec_balance_rows(b: BalancesDto, force_sats: bool) -> Seq<Seq<Seq<char>>> {
    seq![
        seq!["On-chain (total)"@, spec_balance(b.total_onchain_balance_sats as nat, force_sats)],
        seq![
            "On-chain (spendable)"@,
            spec_balance(b.spendable_onchain_balance_sats as nat, force_sats),
        ],
        seq![
            "Anchor reserve"@,
            spec_balance(b.total_anchor_channels_reserve_sats as nat, force_sats),
        ],
        seq!["Lightning (total)"@, spec_balance(b.total_lightning_balance_sats as nat, force_sats)],
    ]
}

/// Builds the wallet balance rows.
pub fn balance_rows(b: &BalancesDto, force_sats: bool) -> (r: Vec<Vec<String>>)
    ensures
        r.deep_view() == spec_balance_rows(*b, force_sats),
{
    let mut r: Vec<Vec<String>> = Vec::new();
    r.push(pair_row("On-chain (total)", format_balance_sats(b.total_onchain_balance_sats, force_sats)));
    r.push(
        pair_row(
            "On-chain (spendable)",
            format_balance_sats(b.spendable_onchain_balance_sats, force_sats),
        ),
    );
    r.push(
        pair_row(
            "Anchor reserve",
            format_balance_sats(b.total_anchor_channels_reserve_sats, force_sats),
        ),
    );
    r.push(
        pair_row("Lightning (total)", format_balance_sats(b.total_lightning_balance_sats, force_sats)),
    );
    proof {
        assert(r.deep_view() =~~= spec_balance_rows(*b, force_sats));
    }
    r
}

/// The table row of one peer: node id (truncated unless disabled),
/// address, connected and persisted flags.
pub open spec fn spec_peer_row(p: PeerDetailsDto, no_truncate: bool) -> Seq<Seq<char>> {
    seq![
        if no_truncate {
            p.node_id@
        } else {
            spec_truncate(p.node_id@)
        },
        p.address@,
        spec_bool_text(p.is_connected),
        spec_bool_text(p.is_persisted),
    ]
}

/// The rows of the peer listing, in server order.
pub open spec fn spec_peer_rows(ps: Seq<PeerDetailsDto>, no_truncate: bool) -> Seq<Seq<Seq<char>>> {
    Seq::new(ps.len(), |i: int| spec_peer_row(ps[i], no_truncate))
}

/// Builds the peer-listing table rows.
pub fn peer_rows(ps: &Vec<PeerDetailsDto>, no_truncate: bool) -> (r: Vec<Vec<String>>)
    ensures
        r.deep_view() == spec_peer_rows(ps@, no_truncate),
{
    let mut r: Vec<Vec<String>> = Vec::new();
    let mut i: usize = 0;
    while i < ps.len()
        invariant
            i <= ps@.len(),
            r.deep_view() =~~= spec_peer_rows(ps@, no_truncate).take(i as int),
        decreases ps@.len() - i,
    {
        let p = &ps[i];
        let id = if no_truncate {
            p.node_id.clone()
        } else {
            truncate_id(p.node_id.as_str())
        };
        let mut row: Vec<String> = Vec::new();
        row.push(id);
        row.push(p.address.clone());
        row.push(bool_text(p.is_connected).to_owned());
        row.push(bool_text(p.is_persisted).to_owned());
        proof {
            assert(row.deep_view() =~= spec_peer_row(ps@[i as int], no_truncate));
        }
        let ghost prev = r;
        r.push(row);
        proof {
            lemma_deep_push(prev, r, row);
            assert(prev.deep_view().len() == i as int);
            assert(r.deep_view() =~= spec_peer_rows(ps@, no_truncate).take(i + 1));
        }
        i += 1;
    }
    proof {
        assert(spec_peer_rows(ps@, no_truncate).take(ps@.len() as int) =~= spec_peer_rows(
            ps@,
            no_truncate,
        ));
    }
    r
}

/// The table row of one channel: user channel id and counterparty
/// (truncated unless disabled), capacity in plain decimal, ready and
/// usable flags.
pub open spec fn spec_channel_row(c: ChannelDetailsExtendedDto, no_truncate: bool) -> Seq<
    Seq<char>,
> {
    seq![
        if no_truncate {
            c.user_channel_id@
        } else {
            spec_truncate(c.user_channel_id@)
        },
        if no_truncate {
            c.counterparty_node_id@
        } else {
            spec_truncate(c.counterparty_node_id@)
        },
        spec_dec(c.channel_value_sats as nat),
        spec_bool_text(c.is_channel_ready),
        spec_bool_text(c.is_usable),
    ]
}

/// The rows of the channel listing, in server order.
pub open spec fn spec_channel_rows(cs: Seq<ChannelDetailsExtendedDto>, no_truncate: bool) -> Seq<
    Seq<Seq<char>>,
> {
    Seq::new(cs.len(), |i: int| spec_channel_row(cs[i], no_truncate))
}

/// Builds the channel-listing table rows.
pub fn channel_rows(cs: &Vec<ChannelDetailsExtendedDto>, no_truncate: bool) -> (r: Vec<
    Vec<String>,
>)
    ensures
        r.deep_view() == spec_channel_rows(cs@, no_truncate),
{
    let mut r: Vec<Vec<String>> = Vec::new();
    let mut i: usize = 0;
    while i < cs.len()
        invariant
            i <= cs@.len(),
            r.deep_view() =~~= spec_channel_rows(cs@, no_truncate).take(i as int),
        decreases cs@.len() - i,
    {
        let c = &cs[i];
        let ucid = if no_truncate {
            c.user_channel_id.clone()
        } else {
            truncate_id(c.user_channel_id.as_str())
        };
        let cpid = if no_truncate {
            c.counterparty_node_id.clone()
        } else {
            truncate_id(c.counterparty_node_id.as_str())
        };
        let mut row: Vec<String> = Vec::new();
        row.push(ucid);
        row.push(cpid);
        row.push(u64_to_dec(c.channel_value_sats));
        row.push(bool_text(c.is_channel_ready).to_owned());
        row.push(bool_text(c.is_usable).to_owned());
        proof {
            assert(row.deep_view() =~= spec_channel_row(cs@[i as int], no_truncate));
        }
        let ghost prev = r;
        r.push(row);
        proof {
            lemma_deep_push(prev, r, row);
            assert(prev.deep_view().len() == i as int);
            assert(r.deep_view() =~= spec_channel_rows(cs@, no_truncate).take(i + 1));
        }
        i += 1;
    }
    proof {
        assert(spec_channel_rows(cs@, no_truncate).take(cs@.len() as int) =~= spec_channel_rows(
            cs@,
            no_truncate,
        ));
    }
    r
}

/// The table row of one stored context: a `"*"` marker when it is the
/// current one, the name, and the URL.
pub open spec fn spec_ctx_row(cfg: CliConfig, i: int) -> Seq<Seq<char>> {
    seq![
        if cfg.current_name() == Some(cfg.contexts@[i].0@) {
            "*"@
        } else {
            ""@
        },
        cfg.contexts@[i].0@,
        cfg.contexts@[i].1.url@,
    ]
}

/// The rows of the context listing, in stored order.
pub open spec fn spec_ctx_rows(cfg: CliConfig) -> Seq<Seq<Seq<char>>> {
    Seq::new(cfg.contexts@.len(), |i: int| spec_ctx_row(cfg, i))
}

/// Builds the context-listing table rows.
pub fn ctx_rows(cfg: &CliConfig) -> (r: Vec<Vec<String>>)
    ensures
        r.deep_view() == spec_ctx_rows(*cfg),
{
    let mut r: Vec<Vec<String>> = Vec::new();
    let mut i: usize = 0;
    while i < cfg.contexts.len()
        invariant
            i <= cfg.contexts@.len(),
            r.deep_view() =~~= spec_ctx_rows(*cfg).take(i as int),
        decreases cfg.contexts@.len() - i,
    {
        let is_current = match &cfg.current {
            Some(cur) => str_eq(cur.as_str(), cfg.contexts[i].0.as_str()),
            None => false,
        };
        let marker = if is_current {
            "*"
        } else {
            ""
        };
        let mut row: Vec<String> = Vec::new();
        row.push(marker.to_owned());
        row.push(cfg.contexts[i].0.clone());
        row.push(cfg.contexts[i].1.url.clone());
        proof {
            assert(row.deep_view() =~= spec_ctx_row(*cfg, i as int));
        }
        let ghost prev = r;
        r.push(row);
        proof {
            lemma_deep_push(prev, r, row);
            assert(prev.deep_view().len() == i as int);
            assert(r.deep_view() =~= spec_ctx_rows(*cfg).take(i + 1));
        }
        i += 1;
    }
    proof {
        assert(spec_ctx_rows(*cfg).take(cfg.contexts@.len() as int) =~= spec_ctx_rows(*cfg));
    }
    r
}

/// The field/value rows of a decoded BOLT12 offer.
pub open spec fn spec_offer_decode_rows(o: Bolt12OfferDecodeResponse) -> Seq<Seq<Seq<char>>> {
    seq![
        seq!["offer_id"@, o.offer_id@],
        seq![
            "signing_pubkey"@,
            match o.signing_pubkey {
                Some(s) => s@,
                None => "-"@,
            },
        ],
        seq![
            "description"@,
            match o.description {
                Some(s) => s@,
                None => "-"@,
            },
        ],
        seq![
            "issuer"@,
            match o.issuer {
                Some(s) => s@,
                None => "-"@,
            },
        ],
        seq!["amount_msat"@, spec_opt_commas_or_dash(o.amount_msat)],
        seq!["absolute_expiry_unix_secs"@, spec_opt_dec_or_dash(o.absolute_expiry_unix_secs)],
        seq!["paths_count"@, spec_dec(o.paths_count as nat)],
        seq!["expects_quantity"@, spec_bool_text(o.expects_quantity)],
        seq!["chain_hashes"@, spec_join_comma(o.chain_hashes.deep_view())],
    ]
}

/// Builds the field/value rows of a decoded BOLT12 offer.
pub fn offer_decode_rows(o: &Bolt12OfferDecodeResponse) -> (r: Vec<Vec<String>>)
    ensures
        r.deep_view() == spec_offer_decode_rows(*o),
{
    let mut r: Vec<Vec<String>> = Vec::new();
    r.push(pair_row("offer_id", o.offer_id.clone()));
    r.push(pair_row("signing_pubkey", opt_string_or_dash(&o.signing_pubkey)));
    r.push(pair_row("description", opt_string_or_dash(&o.description)));
    r.push(pair_row("issuer", opt_string_or_dash(&o.issuer)));
    r.push(pair_row("amount_msat", opt_commas_or_dash(&o.amount_msat)));
    r.push(pair_row("absolute_expiry_unix_secs", opt_dec_or_dash(&o.absolute_expiry_unix_secs)));
    r.push(pair_row("paths_count", u64_to_dec(o.paths_count as u64)));
    r.push(pair_row("expects_quantity", bool_text(o.expects_quantity).to_owned()));
    r.push(pair_row("chain_hashes", join_comma(&o.chain_hashes)));
    proof {
        assert(r.deep_view() =~~= spec_offer_decode_rows(*o));
    }
    r
}

/// The field/value rows of a decoded BOLT12 refund.
pub open spec fn spec_refund_decode_rows(o: Bolt12RefundDecodeResponse) -> Seq<Seq<Seq<char>>> {
    seq![
        seq!["description"@, o.description@],
        seq![
            "issuer"@,
            match o.issuer {
                Some(s) => s@,
                None => "-"@,
            },
        ],
        seq!["amount_msat"@, spec_commas(o.amount_msat as nat)],
        seq!["absolute_expiry_unix_secs"@, spec_opt_dec_or_dash(o.absolute_expiry_unix_secs)],
        seq!["chain_hash"@, o.chain_hash@],
        seq!["payer_signing_pubkey"@, o.payer_signing_pubkey@],
        seq![
            "payer_note"@,
            match o.payer_note {
                Some(s) => s@,
                None => "-"@,
            },
        ],
        seq!["quantity"@, spec_opt_dec_or_dash(o.quantity)],
        seq!["paths_count"@, spec_dec(o.paths_count as nat)],
    ]
}

/// Builds the field/value rows of a decoded BOLT12 refund.
pub fn refund_decode_rows(o: &Bolt12RefundDecodeResponse) -> (r: Vec<Vec<String>>)
    ensures
        r.deep_view() == spec_refund_decode_rows(*o),
{
    let mut r: Vec<Vec<String>> = Vec::new();
    r.push(pair_row("description", o.description.clone()));
    r.push(pair_row("issuer", opt_string_or_dash(&o.issuer)));
    r.push(pair_row("amount_msat", format_u64_with_commas(o.amount_msat)));
    r.push(pair_row("absolute_expiry_unix_secs", opt_dec_or_dash(&o.absolute_expiry_unix_secs)));
    r.push(pair_row("chain_hash", o.chain_hash.clone()));
    r.push(pair_row("payer_signing_pubkey", o.payer_signing_pubkey.clone()));
    r.push(pair_row("payer_note", opt_string_or_dash(&o.payer_note)));
    r.push(pair_row("quantity", opt_dec_or_dash(&o.quantity)));
    r.push(pair_row("paths_count", u64_to_dec(o.paths_count as u64)));
    proof {
        assert(r.deep_view() =~~= spec_refund_decode_rows(*o));
    }
    r
}

/// The text of one balance delta: `"0 sats"` for no change, else the
/// magnitude rendered by the balance rule with an explicit sign.
pub open spec fn spec_delta_text(d: int) -> Seq<char> {
    if d == 0 {
        "0 sats"@
    } else if d > 0 {
        seq!['+'] + spec_balance(d as nat, false)
    } else {
        seq!['-'] + spec_balance((-d) as nat, false)
    }
}

fn delta_text(d: i128) -> (r: String)
    requires
        -(u64::MAX as i128) <= d <= u64::MAX as i128,
    ensures
        r@ == spec_delta_text(d as int),
{
    if d == 0 {
        "0 sats".to_owned()
    } else if d > 0 {
        let mut r = "+".to_owned();
        r.append(format_balance_sats(d as u64, false).as_str());
        proof {
            reveal_strlit("+");
            assert("+"@ =~= seq!['+']);
            assert(r@ =~= spec_delta_text(d as int));
        }
        r
    } else {
        let mut r = "-".to_owned();
        r.append(format_balance_sats((-d) as u64, false).as_str());
        proof {
            reveal_strlit("-");
            assert("-"@ =~= seq!['-']);
            assert(r@ =~= spec_delta_text(d as int));
        }
        r
    }
}

/// The lines reported after a wallet sync with balance comparison: the
/// sync confirmation, then either `"No balance change."` or one line
/// naming the on-chain total, spendable, and lightning deltas.
pub open spec fn spec_sync_lines(before: BalancesDto, after: BalancesDto) -> Seq<Seq<char>> {
    let dt = after.total_onchain_balance_sats as int - before.total_onchain_balance_sats as int;
    let ds = after.spendable_onchain_balance_sats as int
        - before.spendable_onchain_balance_sats as int;
    let dl = after.total_lightning_balance_sats as int
        - before.total_lightning_balance_sats as int;
    if dt == 0 && ds == 0 && dl == 0 {
        seq!["Wallet synced."@, "No balance change."@]
    } else {
        seq![
            "Wallet synced."@,
            "Balance change: on-chain total "@ + spec_delta_text(dt) + ", spendable "@
                + spec_delta_text(ds) + ", lightning "@ + spec_delta_text(dl) + seq!['.'],
        ]
    }
}

/// Compares the balances around a wallet sync and renders the outcome.
pub fn wallet_sync_lines(before: &BalancesDto, after: &BalancesDto) -> (r: Vec<String>)
    ensures
        r.deep_view() == spec_sync_lines(*before, *after),
{
    let dt = after.total_onchain_balance_sats as i128
        - before.total_onchain_balance_sats as i128;
    let ds = after.spendable_onchain_balance_sats as i128
        - before.spendable_onchain_balance_sats as i128;
    let dl = after.total_lightning_balance_sats as i128
        - before.total_lightning_balance_sats as i128;
    let mut r: Vec<String> = Vec::new();
    r.push("Wallet synced.".to_owned());
    if dt == 0 && ds == 0 && dl == 0 {
        r.push("No balance change.".to_owned());
    } else {
        let mut line = "Balance change: on-chain total ".to_owned();
        line.append(delta_text(dt).as_str());
        line.append(", spendable ");
        line.append(delta_text(ds).as_str());
        line.append(", lightning ");
        line.append(delta_text(dl).as_str());
        line.append(".");
        proof {
            reveal_strlit(".");
            assert("."@ =~= seq!['.']);
            assert(line@ =~= spec_sync_lines(*before, *after)[1]);
        }
        r.push(line);
    }
    proof {
        assert(r.deep_view() =~= spec_sync_lines(*before, *after));
    }
    r
}

} // verus!
