use rgbldk::checks::HealthCheckDto;
use rgbldk::checks::OkResponse;
use rgbldk::checks::display_check_name;
use rgbldk::checks::humanize_check_name;
use rgbldk::checks::ready_exit_code;
use rgbldk::checks::render_checks;
use rgbldk::theme::ColorMode;
use rgbldk::theme::resolve_theme;

fn plain_theme() -> rgbldk::theme::Theme {
    resolve_theme(ColorMode::Never, false, false, false)
}

fn color_theme() -> rgbldk::theme::Theme {
    resolve_theme(ColorMode::Always, true, true, false)
}

#[test]
fn known_names_have_fixed_labels() {
    assert_eq!(display_check_name("http_server"), "HTTP Server");
    assert_eq!(display_check_name("node_is_running"), "Lightning Node");
    assert_eq!(display_check_name("p2p_is_listening"), "P2P Listener");
    assert_eq!(display_check_name("best_block_height_known"), "Best Block Height");
}

#[test]
fn unknown_names_are_humanized() {
    assert_eq!(humanize_check_name("wallet_synced"), "Wallet Synced");
    assert_eq!(humanize_check_name("ldk_peers_ok"), "LDK Peers Ok");
    assert_eq!(humanize_check_name("http_api_reachable"), "HTTP API Reachable");
    assert_eq!(humanize_check_name("rgb_assets"), "RGB Assets");
    assert_eq!(humanize_check_name("single"), "Single");
    assert_eq!(display_check_name("p2p_gossip"), "P2P Gossip");
}

#[test]
fn humanize_tolerates_odd_names() {
    assert_eq!(humanize_check_name(""), "");
    assert_eq!(humanize_check_name("_"), "_");
    assert_eq!(humanize_check_name("__"), "__");
    assert_eq!(humanize_check_name("a__b"), "A B");
    assert_eq!(humanize_check_name("_leading"), "Leading");
    assert_eq!(humanize_check_name("9lives"), "9lives");
}

#[test]
fn render_plain_report() {
    let checks = vec![
        HealthCheckDto {
            name: "node_is_running".to_string(),
            ok: true,
            detail: None,
            hint: None,
        },
        HealthCheckDto {
            name: "wallet_synced".to_string(),
            ok: false,
            detail: Some("3 blocks behind".to_string()),
            hint: Some("run a wallet sync".to_string()),
        },
    ];
    let lines = render_checks(plain_theme(), "node health", false, &checks);
    assert_eq!(
        lines,
        vec![
            "[X] node health".to_string(),
            "  [OK] Lightning Node".to_string(),
            "  [X] Wallet Synced: 3 blocks behind".to_string(),
            "      hint: run a wallet sync".to_string(),
        ]
    );
}

#[test]
fn render_hint_only_under_failing_checks() {
    let checks = vec![
        HealthCheckDto {
            name: "wallet_synced".to_string(),
            ok: true,
            detail: None,
            hint: Some("you should never see this".to_string()),
        },
        HealthCheckDto {
            name: "http_server".to_string(),
            ok: false,
            detail: None,
            hint: Some("check the port".to_string()),
        },
    ];
    let lines = render_checks(plain_theme(), "node health", false, &checks);
    assert_eq!(
        lines,
        vec![
            "[X] node health".to_string(),
            "  [OK] Wallet Synced".to_string(),
            "  [X] HTTP Server".to_string(),
            "      hint: check the port".to_string(),
        ]
    );
}

#[test]
fn humanize_uses_unicode_uppercase() {
    assert_eq!(humanize_check_name("\u{e9}clair_api"), "\u{c9}clair API");
}

#[test]
fn render_empty_detail_is_omitted() {
    let checks = vec![HealthCheckDto {
        name: "http_server".to_string(),
        ok: true,
        detail: Some(String::new()),
        hint: None,
    }];
    let lines = render_checks(plain_theme(), "node health", true, &checks);
    assert_eq!(lines, vec!["[OK] node health".to_string(), "  [OK] HTTP Server".to_string()]);
}

#[test]
fn render_colored_glyphs() {
    let checks = vec![HealthCheckDto {
        name: "node_is_running".to_string(),
        ok: false,
        detail: None,
        hint: None,
    }];
    let lines = render_checks(color_theme(), "node ready", false, &checks);
    assert_eq!(lines[0], "\u{1b}[31m\u{2718}\u{1b}[39m node ready");
    assert_eq!(lines[1], "  \u{1b}[31m\u{2718}\u{1b}[39m Lightning Node");
    let ok_lines = render_checks(color_theme(), "node ready", true, &vec![]);
    assert_eq!(ok_lines, vec!["\u{1b}[32m\u{2714}\u{1b}[39m node ready".to_string()]);
}

#[test]
fn readiness_not_ready_renders_and_exits_nonzero() {
    let resp = OkResponse {
        ok: false,
        checks: vec![HealthCheckDto {
            name: "node_is_running".to_string(),
            ok: false,
            detail: None,
            hint: None,
        }],
    };
    let lines = render_checks(plain_theme(), "node ready", resp.ok, &resp.checks);
    assert_eq!(lines[0], "[X] node ready");
    assert_eq!(lines[1], "  [X] Lightning Node");
    assert_eq!(ready_exit_code(resp.ok), 1);
    assert_eq!(ready_exit_code(true), 0);
}
