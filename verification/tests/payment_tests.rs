use rgbldk::checks::HealthCheckDto;
use rgbldk::paywait::PaymentDetailsDto;
use rgbldk::paywait::PaymentWaitRequest;
use rgbldk::paywait::PaymentWaitResponse;
use rgbldk::paywait::payment_detail_rows;
use rgbldk::paywait::payment_rows;
use rgbldk::paywait::payment_wait_failure_lines;
use rgbldk::paywait::payment_wait_is_structured;
use rgbldk::paywait::payment_wait_success_lines;
use rgbldk::paywait::status_label;
use rgbldk::theme::ColorMode;
use rgbldk::theme::resolve_theme;

fn plain_theme() -> rgbldk::theme::Theme {
    resolve_theme(ColorMode::Never, false, false, false)
}

fn payment(id: &str, status: &str) -> PaymentDetailsDto {
    PaymentDetailsDto {
        id: id.to_string(),
        direction: "Outbound".to_string(),
        status: status.to_string(),
        amount_msat: Some(1500000),
        kind: "Bolt11".to_string(),
        fee_paid_msat: None,
        kind_details: None,
    }
}

#[test]
fn wait_branches_on_status() {
    assert!(payment_wait_is_structured(200));
    assert!(!payment_wait_is_structured(202));
    assert!(!payment_wait_is_structured(408));
    assert!(!payment_wait_is_structured(504));
}

#[test]
fn wait_success_report() {
    let resp = PaymentWaitResponse {
        ok: true,
        payment: payment("abc123", "Succeeded"),
        checks: vec![],
    };
    let lines = payment_wait_success_lines(plain_theme(), &resp);
    assert_eq!(lines, vec!["[OK] Payment wait".to_string(), "abc123".to_string()]);
}

#[test]
fn wait_timeout_report_is_data_not_error() {
    // The server's own structured ok=false is valid data: the aggregate
    // flag is shown as reported, never recomputed from the checks.
    let resp = PaymentWaitResponse {
        ok: false,
        payment: payment("abc123", "Pending"),
        checks: vec![HealthCheckDto {
            name: "payment_terminal".to_string(),
            ok: true,
            detail: None,
            hint: None,
        }],
    };
    let lines = payment_wait_success_lines(plain_theme(), &resp);
    assert_eq!(
        lines,
        vec![
            "[X] Payment wait".to_string(),
            "  [OK] Payment Terminal".to_string(),
            "abc123".to_string(),
        ]
    );
}

#[test]
fn wait_failure_best_effort() {
    let checks = vec![HealthCheckDto {
        name: "payment_found".to_string(),
        ok: false,
        detail: None,
        hint: None,
    }];
    let (err, out) = payment_wait_failure_lines(
        plain_theme(),
        Some("no such payment".to_string()),
        Some(checks),
        Some("abc123".to_string()),
    );
    assert_eq!(err, "no such payment");
    assert_eq!(
        out,
        vec![
            "[X] Details".to_string(),
            "  [X] Payment Found".to_string(),
            "abc123".to_string(),
        ]
    );
}

#[test]
fn wait_failure_tolerates_missing_extras() {
    let (err, out) = payment_wait_failure_lines(plain_theme(), None, None, None);
    assert_eq!(err, "request failed");
    assert!(out.is_empty());
}

#[test]
fn wait_request_carries_timeout() {
    let req = PaymentWaitRequest { timeout_secs: Some(5) };
    assert_eq!(req.timeout_secs, Some(5));
}

#[test]
fn status_labels_glyphed() {
    assert_eq!(status_label("Succeeded", false), "\u{2714} Succeeded");
    assert_eq!(status_label("Pending", false), "\u{2026} Pending");
    assert_eq!(status_label("Failed", false), "\u{2718} Failed");
    assert_eq!(status_label("Odd", false), "Odd");
    assert_eq!(status_label("Succeeded", true), "\u{1b}[32m\u{2714} Succeeded\u{1b}[39m");
    assert_eq!(status_label("Pending", true), "\u{1b}[33m\u{2026} Pending\u{1b}[39m");
    assert_eq!(status_label("Failed", true), "\u{1b}[31m\u{2718} Failed\u{1b}[39m");
}

#[test]
fn payment_listing_rows() {
    let ps = vec![
        PaymentDetailsDto {
            id: "0123456789abcdef0123".to_string(),
            direction: "Inbound".to_string(),
            status: "Succeeded".to_string(),
            amount_msat: Some(2500000),
            kind: "Bolt11".to_string(),
            fee_paid_msat: Some(12),
            kind_details: None,
        },
    ];
    let rows = payment_rows(&ps, false);
    assert_eq!(
        rows,
        vec![vec![
            "01234567...cdef0123".to_string(),
            "Succeeded".to_string(),
            "Bolt11".to_string(),
            "Inbound".to_string(),
            "2,500,000".to_string(),
            "12".to_string(),
        ]]
    );
    let untruncated = payment_rows(&ps, true);
    assert_eq!(untruncated[0][0], "0123456789abcdef0123");
}

#[test]
fn payment_detail_view() {
    let mut p = payment("abc", "Succeeded");
    p.kind_details = Some(r#"{"payment_hash":"ff"}"#.to_string());
    let rows = payment_detail_rows(&p, false);
    assert_eq!(
        rows,
        vec![
            vec!["id".to_string(), "abc".to_string()],
            vec!["direction".to_string(), "Outbound".to_string()],
            vec!["status".to_string(), "\u{2714} Succeeded".to_string()],
            vec!["kind".to_string(), "Bolt11".to_string()],
            vec!["kind_details".to_string(), r#"{"payment_hash":"ff"}"#.to_string()],
            vec!["amount (msat)".to_string(), "1,500,000 msat".to_string()],
            vec!["fee paid (msat)".to_string(), "-".to_string()],
        ]
    );
}
