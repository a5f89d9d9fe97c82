//! The payment-wait protocol and payment rendering: one long-poll call,
//! whose 200 reply carries the structured `{ok, payment, checks}` shape
//! and whose other replies are generic error envelopes that may still
//! carry checks and a partial payment for best-effort display. The caller
//! must branch on the status before choosing a decode target.

use vstd::prelude::*;
use vstd::string::StringExecFns;

use crate::checks::HealthCheckDto;
use crate::checks::render_checks;
use crate::checks::spec_check_report;
use crate::fmt::spec_commas;
use crate::fmt::spec_truncate;
use crate::fmt::format_u64_with_commas;
use crate::fmt::truncate_id;
use crate::strutil::str_eq;
use crate::theme::Theme;
use crate::theme::paint_green;
use crate::theme::paint_red;
use crate::theme::paint_yellow;
use crate::theme::spec_green;
use crate::theme::spec_red;
use crate::theme::spec_yellow;

verus! {

/// A payment as last reported by the server; immutable, replaced
/// wholesale by each poll. Kind-specific details are carried as their
/// JSON text when present.
pub struct PaymentDetailsDto {
    /// Payment id (hex-encoded 32 bytes).
    pub id: String,
    /// Direction, either Inbound or Outbound.
    pub direction: String,
    /// Status, one of Pending, Succeeded, Failed.
    pub status: String,
    /// Amount in millisatoshis, if known.
    pub amount_msat: Option<u64>,
    /// Payment kind label.
    pub kind: String,
    /// Fee paid in millisatoshis, if known.
    pub fee_paid_msat: Option<u64>,
    /// Kind-specific details as JSON text, when available.
    pub kind_details: Option<String>,
}

/// Request to wait for a payment to reach a terminal state; the server
/// defaults the timeout to 60 seconds when omitted.
pub struct PaymentWaitRequest {
    /// Server-side wait bound in seconds.
    pub timeout_secs: Option<u32>,
}

/// The structured 200 reply of a payment wait: the server's verdict on
/// whether the payment succeeded before the deadline, the final payment
/// snapshot, and explanatory checks.
pub struct PaymentWaitResponse {
    /// Whether the payment reached the Succeeded state in time.
    pub ok: bool,
    /// The final payment details.
    pub payment: PaymentDetailsDto,
    /// Explainability sub-checks for the wait flow.
    pub checks: Vec<HealthCheckDto>,
}

/// Whether a payment-wait reply carries the structured success shape;
/// any other status is a generic error envelope with optional extras.
pub fn payment_wait_is_structured(status: u16) -> (r: bool)
    ensures
        r == (status == 200),
{
    status == 200
}

/// The status cell of a payment: the three terminal-state labels get a
/// fixed glyphed (and, with color, tinted) form; anything else is shown
/// as reported.
pub open spec fn spec_status_label(status: Seq<char>, color: bool) -> Seq<char> {
    if status == "Succeeded"@ {
        if color {
            spec_green("\u{2714} Succeeded"@)
        } else {
            "\u{2714} Succeeded"@
        }
    } else if status == "Pending"@ {
        if color {
            spec_yellow("\u{2026} Pending"@)
        } else {
            "\u{2026} Pending"@
        }
    } else if status == "Failed"@ {
        if color {
            spec_red("\u{2718} Failed"@)
        } else {
            "\u{2718} Failed"@
        }
    } else {
        status
    }
}

/// Renders a payment status as its glyphed display form.
pub fn status_label(status: &str, color: bool) -> (r: String)
    ensures
        r@ == spec_status_label(status@, color),
{
    if str_eq(status, "Succeeded") {
        if color {
            paint_green("\u{2714} Succeeded")
        } else {
            "\u{2714} Succeeded".to_owned()
        }
    } else if str_eq(status, "Pending") {
        if color {
            paint_yellow("\u{2026} Pending")
        } else {
            "\u{2026} Pending".to_owned()
        }
    } else if str_eq(status, "Failed") {
        if color {
            paint_red("\u{2718} Failed")
        } else {
            "\u{2718} Failed".to_owned()
        }
    } else {
        status.to_owned()
    }
}

/// An optional msat quantity as a grouped integer, or `"-"`.
pub open spec fn spec_msat_or_dash(o: Option<u64>) -> Seq<char> {
    match o {
        Some(v) => spec_commas(v as nat),
        None => "-"@,
    }
}

/// An optional msat quantity as a grouped integer with a `" msat"`
/// suffix, or `"-"`.
pub open spec fn spec_msat_suffixed_or_dash(o: Option<u64>) -> Seq<char> {
    match o {
        Some(v) => spec_commas(v as nat) + " msat"@,
        None => "-"@,
    }
}

fn msat_or_dash(o: &Option<u64>) -> (r: String)
    ensures
        r@ == spec_msat_or_dash(*o),
{
    match o {
        Some(v) => format_u64_with_commas(*v),
        None => "-".to_owned(),
    }
}

fn msat_suffixed_or_dash(o: &Option<u64>) -> (r: String)
    ensures
        r@ == spec_msat_suffixed_or_dash(*o),
{
    match o {
        Some(v) => {
            let mut r = format_u64_with_commas(*v);
            r.append(" msat");
            r
        },
        None => "-".to_owned(),
    }
}

/// A two-cell field/value display row.
pub fn pair_row(label: &str, value: String) -> (r: Vec<String>)
    ensures
        r.deep_view() =~= seq![label@, value@],
{
    let mut r: Vec<String> = Vec::new();
    r.push(label.to_owned());
    r.push(value);
    r
}

/// The table row of one payment in a payment listing: id (truncated
/// unless disabled), status, kind, direction, and the optional amount and
/// fee as grouped integers or `"-"`.
pub open spec fn spec_payment_row(p: PaymentDetailsDto, no_truncate: bool) -> Seq<Seq<char>> {
    seq![
        if no_truncate {
            p.id@
        } else {
            spec_truncate(p.id@)
        },
        p.status@,
        p.kind@,
        p.direction@,
        spec_msat_or_dash(p.amount_msat),
        spec_msat_or_dash(p.fee_paid_msat),
    ]
}

/// The rows of a payment listing, in server order.
pub open spec fn spec_payment_rows(ps: Seq<PaymentDetailsDto>, no_truncate: bool) -> Seq<
    Seq<Seq<char>>,
> {
    Seq::new(ps.len(), |i: int| spec_payment_row(ps[i], no_truncate))
}

/// Builds the payment-listing table rows.
pub fn payment_rows(ps: &Vec<PaymentDetailsDto>, no_truncate: bool) -> (r: Vec<Vec<String>>)
    ensures
        r.deep_view() == spec_payment_rows(ps@, no_truncate),
{
    let mut r: Vec<Vec<String>> = Vec::new();
    let mut i: usize = 0;
    while i < ps.len()
        invariant
            i <= ps@.len(),
            r.deep_view() =~~= spec_payment_rows(ps@, no_truncate).take(i as int),
        decreases ps@.len() - i,
    {
        let p = &ps[i];
        let id = if no_truncate {
            p.id.clone()
        } else {
            truncate_id(p.id.as_str())
        };
        let mut row: Vec<String> = Vec::new();
        row.push(id);
        row.push(p.status.clone());
        row.push(p.kind.clone());
        row.push(p.direction.clone());
        row.push(msat_or_dash(&p.amount_msat));
        row.push(msat_or_dash(&p.fee_paid_msat));
        proof {
            assert(row.deep_view() =~= spec_payment_row(ps@[i as int], no_truncate));
        }
        let ghost prevs = r@;
        let ghost prevdv = r.deep_view();
        r.push(row);
        proof {
            assert forall|j: int| 0 <= j < prevs.len() implies #[trigger] r.deep_view()[j]
                == prevdv[j] by {
                assert(r@[j] == prevs[j]);
            }
            assert(r.deep_view()[prevs.len() as int] == row.deep_view());
            assert(prevdv == spec_payment_rows(ps@, no_truncate).take(i as int));
            assert(prevdv.len() == prevs.len());
            assert(spec_payment_rows(ps@, no_truncate).take(i as int).len() == i as int);
            assert(prevs.len() == i as int);
            assert(r.deep_view().len() == i + 1);
            assert(spec_payment_rows(ps@, no_truncate).take(i + 1).len() == i + 1);
            assert forall|j: int| 0 <= j < i + 1 implies #[trigger] r.deep_view()[j]
                == spec_payment_rows(ps@, no_truncate).take(i + 1)[j] by {
                assert(spec_payment_rows(ps@, no_truncate).take(i + 1)[j] == spec_payment_rows(
                    ps@,
                    no_truncate,
                )[j]);
                assert(spec_payment_rows(ps@, no_truncate)[j] == spec_payment_row(
                    ps@[j],
                    no_truncate,
                ));
                if j < i {
                    assert(spec_payment_rows(ps@, no_truncate).take(i as int)[j]
                        == spec_payment_rows(ps@, no_truncate)[j]);
                    assert(r.deep_view()[j] == prevdv[j]);
                }
            }
            assert(r.deep_view() =~= spec_payment_rows(ps@, no_truncate).take(i + 1));
        }
        i += 1;
    }
    proof {
        assert(spec_payment_rows(ps@, no_truncate).take(ps@.len() as int) =~~= spec_payment_rows(
            ps@,
            no_truncate,
        ));
    }
    r
}

/// The field/value rows of a single payment's detail view.
pub open spec fn spec_payment_detail_rows(p: PaymentDetailsDto, color: bool) -> Seq<
    Seq<Seq<char>>,
> {
    seq![
        seq!["id"@, p.id@],
        seq!["direction"@, p.direction@],
        seq!["status"@, spec_status_label(p.status@, color)],
        seq!["kind"@, p.kind@],
        seq![
            "kind_details"@,
            match p.kind_details {
                Some(d) => d@,
                None => "-"@,
            },
        ],
        seq!["amount (msat)"@, spec_msat_suffixed_or_dash(p.amount_msat)],
        seq!["fee paid (msat)"@, spec_msat_suffixed_or_dash(p.fee_paid_msat)],
    ]
}

/// Builds the field/value rows of one payment's detail view.
pub fn payment_detail_rows(p: &PaymentDetailsDto, color: bool) -> (r: Vec<Vec<String>>)
    ensures
        r.deep_view() == spec_payment_detail_rows(*p, color),
{
    let mut r: Vec<Vec<String>> = Vec::new();
    r.push(pair_row("id", p.id.clone()));
    r.push(pair_row("direction", p.direction.clone()));
    r.push(pair_row("status", status_label(p.status.as_str(), color)));
    r.push(pair_row("kind", p.kind.clone()));
    let kd = match &p.kind_details {
        Some(d) => d.clone(),
        None => "-".to_owned(),
    };
    r.push(pair_row("kind_details", kd));
    r.push(pair_row("amount (msat)", msat_suffixed_or_dash(&p.amount_msat)));
    r.push(pair_row("fee paid (msat)", msat_suffixed_or_dash(&p.fee_paid_msat)));
    proof {
        assert(r.deep_view() =~~= spec_payment_detail_rows(*p, color));
    }
    r
}

/// The display lines of a structured payment-wait reply: the check report
/// titled `Payment wait` with the server's verdict, then the payment id.
pub open spec fn spec_wait_success_lines(t: Theme, resp: PaymentWaitResponse) -> Seq<Seq<char>> {
    spec_check_report(t, "Payment wait"@, resp.ok, resp.checks@) + seq![resp.payment.id@]
}

/// Renders a structured payment-wait reply.
pub fn payment_wait_success_lines(theme: Theme, resp: &PaymentWaitResponse) -> (r: Vec<String>)
    ensures
        r.deep_view() == spec_wait_success_lines(theme, *resp),
{
    let mut r = render_checks(theme, "Payment wait", resp.ok, &resp.checks);
    r.push(resp.payment.id.clone());
    proof {
        assert(r.deep_view() =~= spec_wait_success_lines(theme, *resp));
    }
    r
}

/// The error line of a failed payment wait: the reported message (or
/// `"request failed"` when none could be extracted), tinted red when the
/// theme colors output.
pub open spec fn spec_wait_failure_err(t: Theme, err: Option<String>) -> Seq<char> {
    let m = match err {
        Some(e) => e@,
        None => "request failed"@,
    };
    if t.color {
        spec_red(m)
    } else {
        m
    }
}

/// The best-effort stdout lines of a failed payment wait: a `Details`
/// check report when the body carried checks, and the payment id when it
/// carried a payment; the absence of either is tolerated.
pub open spec fn spec_wait_failure_out(
    t: Theme,
    checks: Option<Vec<HealthCheckDto>>,
    payment_id: Option<String>,
) -> Seq<Seq<char>> {
    (match checks {
        Some(cs) => spec_check_report(t, "Details"@, false, cs@),
        None => Seq::empty(),
    }) + (match payment_id {
        Some(p) => seq![p@],
        None => Seq::empty(),
    })
}

/// Renders a failed payment wait: the error line for the error stream,
/// and the best-effort detail lines for standard output.
pub fn payment_wait_failure_lines(
    theme: Theme,
    err: Option<String>,
    checks: Option<Vec<HealthCheckDto>>,
    payment_id: Option<String>,
) -> (r: (String, Vec<String>))
    ensures
        r.0@ == spec_wait_failure_err(theme, err),
        r.1.deep_view() == spec_wait_failure_out(theme, checks, payment_id),
{
    let msg = match &err {
        Some(e) => e.clone(),
        None => "request failed".to_owned(),
    };
    let err_line = if theme.color {
        paint_red(msg.as_str())
    } else {
        msg
    };
    let mut out: Vec<String> = match &checks {
        Some(cs) => render_checks(theme, "Details", false, cs),
        None => Vec::new(),
    };
    match &payment_id {
        Some(p) => {
            out.push(p.clone());
        },
        None => {},
    }
    proof {
        assert(out.deep_view() =~= spec_wait_failure_out(theme, checks, payment_id));
    }
    (err_line, out)
}

} // verus!
