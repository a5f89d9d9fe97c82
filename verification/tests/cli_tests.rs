use rgbldk::confirm::ConfirmDecision;
use rgbldk::confirm::confirm_answer;
use rgbldk::confirm::confirm_decision;
use rgbldk::dto::parse_tlv_arg;
use rgbldk::theme::ColorMode;
use rgbldk::theme::OutputMode;
use rgbldk::theme::OutputOpt;
use rgbldk::theme::paint_green;
use rgbldk::theme::paint_red;
use rgbldk::theme::paint_yellow;
use rgbldk::theme::resolve_output_mode;
use rgbldk::theme::resolve_theme;

#[test]
fn output_mode_resolution() {
    assert!(matches!(resolve_output_mode(OutputOpt::Text, false), OutputMode::Text));
    assert!(matches!(resolve_output_mode(OutputOpt::Json, true), OutputMode::Json));
    assert!(matches!(resolve_output_mode(OutputOpt::Auto, true), OutputMode::Text));
    assert!(matches!(resolve_output_mode(OutputOpt::Auto, false), OutputMode::Json));
}

#[test]
fn theme_resolution() {
    let t = resolve_theme(ColorMode::Auto, true, true, false);
    assert!(t.color);
    assert!(t.unicode);
    assert_eq!(t.ok, "\u{2714}");
    assert_eq!(t.bad, "\u{2718}");
    let opted_out = resolve_theme(ColorMode::Auto, true, true, true);
    assert!(!opted_out.color);
    let plain = resolve_theme(ColorMode::Never, false, true, false);
    assert!(!plain.color);
    assert_eq!(plain.ok, "[OK]");
    assert_eq!(plain.bad, "[X]");
    let forced = resolve_theme(ColorMode::Always, false, false, true);
    assert!(forced.color);
}

#[test]
fn paint_wraps_in_ansi() {
    assert_eq!(paint_green("hi"), "\u{1b}[32mhi\u{1b}[39m");
    assert_eq!(paint_red("hi"), "\u{1b}[31mhi\u{1b}[39m");
    assert_eq!(paint_yellow("hi"), "\u{1b}[33mhi\u{1b}[39m");
}

#[test]
fn confirm_rules() {
    assert!(matches!(confirm_decision(true, false), ConfirmDecision::Proceed));
    assert!(matches!(confirm_decision(true, true), ConfirmDecision::Proceed));
    assert!(matches!(confirm_decision(false, false), ConfirmDecision::RefuseNonInteractive));
    assert!(matches!(confirm_decision(false, true), ConfirmDecision::Prompt));
}

#[test]
fn confirm_answers() {
    assert!(confirm_answer("yes"));
    assert!(confirm_answer(" yes\n"));
    assert!(confirm_answer("\u{a0}yes\u{2028}"));
    assert!(!confirm_answer("y"));
    assert!(!confirm_answer("YES"));
    assert!(!confirm_answer(""));
}

#[test]
fn tlv_argument_parses() {
    let t = parse_tlv_arg("7000:deadbeef").unwrap();
    assert_eq!(t.tlv_type, 7000);
    assert_eq!(t.value_hex, "deadbeef");
    let plus = parse_tlv_arg("+5:aa").unwrap();
    assert_eq!(plus.tlv_type, 5);
    let colons = parse_tlv_arg("1:aa:bb").unwrap();
    assert_eq!(colons.tlv_type, 1);
    assert_eq!(colons.value_hex, "aa:bb");
}

#[test]
fn tlv_argument_rejections() {
    assert_eq!(
        parse_tlv_arg("no-colon").unwrap_err(),
        "invalid --tlv (expected <type>:<hex>)"
    );
    assert_eq!(parse_tlv_arg("x:aa").unwrap_err(), "invalid --tlv type");
    assert_eq!(parse_tlv_arg(":aa").unwrap_err(), "invalid --tlv type");
    assert_eq!(parse_tlv_arg("99999999999999999999:aa").unwrap_err(), "invalid --tlv type");
    assert_eq!(parse_tlv_arg("18446744073709551615:aa").unwrap().tlv_type, u64::MAX);
    assert_eq!(parse_tlv_arg("+:aa").unwrap_err(), "invalid --tlv type");
    assert_eq!(parse_tlv_arg("5:").unwrap().value_hex, "");
}
