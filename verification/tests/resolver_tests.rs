use rgbldk::config::CliConfig;
use rgbldk::config::CtxEntry;
use rgbldk::config::default_config_path;
use rgbldk::config::resolve_connect;

fn store(entries: &[(&str, &str)], current: Option<&str>) -> CliConfig {
    let mut cfg = CliConfig::new();
    for (name, url) in entries {
        cfg.ctx_add(name.to_string(), url.to_string(), false);
    }
    cfg.current = current.map(|c| c.to_string());
    cfg
}

#[test]
fn resolver_explicit_wins() {
    let cfg = store(&[("prod", "http://10.0.0.5:9000")], Some("prod"));
    let r = resolve_connect(
        Some("http://explicit:1".to_string()),
        Some("http://env:2".to_string()),
        Some("http://alias:3".to_string()),
        Some("prod".to_string()),
        &cfg,
    );
    assert_eq!(r, "http://explicit:1");
}

#[test]
fn resolver_whitespace_is_absent() {
    let cfg = store(&[], None);
    let r = resolve_connect(
        Some("   ".to_string()),
        Some("\t\n".to_string()),
        Some("http://alias:3".to_string()),
        None,
        &cfg,
    );
    assert_eq!(r, "http://alias:3");
}

#[test]
fn resolver_unicode_whitespace_is_absent() {
    let cfg = store(&[("prod", "http://10.0.0.5:9000")], None);
    let r = resolve_connect(
        Some("\u{a0}\u{2003}".to_string()),
        None,
        None,
        Some("\u{a0}prod\u{3000}".to_string()),
        &cfg,
    );
    assert_eq!(r, "http://10.0.0.5:9000");
}

#[test]
fn resolver_env_url_before_alias() {
    let cfg = store(&[], None);
    let r = resolve_connect(
        None,
        Some("http://env:2".to_string()),
        Some("http://alias:3".to_string()),
        None,
        &cfg,
    );
    assert_eq!(r, "http://env:2");
}

#[test]
fn resolver_named_context_from_store() {
    let cfg = store(&[("prod", "http://10.0.0.5:9000")], None);
    let r = resolve_connect(None, None, None, Some("prod".to_string()), &cfg);
    assert_eq!(r, "http://10.0.0.5:9000");
}

#[test]
fn resolver_named_context_is_trimmed() {
    let cfg = store(&[("prod", "http://10.0.0.5:9000")], None);
    let r = resolve_connect(None, None, None, Some("  prod \n".to_string()), &cfg);
    assert_eq!(r, "http://10.0.0.5:9000");
}

#[test]
fn resolver_unknown_named_context_falls_through() {
    let cfg = store(&[("prod", "http://10.0.0.5:9000")], Some("prod"));
    let r = resolve_connect(None, None, None, Some("staging".to_string()), &cfg);
    assert_eq!(r, "http://10.0.0.5:9000");
}

#[test]
fn resolver_blank_named_context_falls_through() {
    let cfg = store(&[("a", "http://a:1")], Some("a"));
    let r = resolve_connect(None, None, None, Some("   ".to_string()), &cfg);
    assert_eq!(r, "http://a:1");
}

#[test]
fn resolver_current_context() {
    let cfg = store(&[("a", "http://a:1"), ("b", "http://b:2")], Some("b"));
    let r = resolve_connect(None, None, None, None, &cfg);
    assert_eq!(r, "http://b:2");
}

#[test]
fn resolver_default_when_nothing_set() {
    let cfg = store(&[], None);
    let r = resolve_connect(None, None, None, None, &cfg);
    assert_eq!(r, "http://127.0.0.1:8500");
}

#[test]
fn resolver_missing_current_falls_to_default() {
    let cfg = store(&[("a", "http://a:1")], Some("gone"));
    let r = resolve_connect(None, None, None, None, &cfg);
    assert_eq!(r, "http://127.0.0.1:8500");
}

#[test]
fn ctx_add_first_becomes_current() {
    let mut cfg = CliConfig::new();
    cfg.ctx_add("a".to_string(), "http://a:1".to_string(), false);
    assert_eq!(cfg.current.as_deref(), Some("a"));
    cfg.ctx_add("b".to_string(), "http://b:2".to_string(), false);
    assert_eq!(cfg.current.as_deref(), Some("a"));
    cfg.ctx_add("c".to_string(), "http://c:3".to_string(), true);
    assert_eq!(cfg.current.as_deref(), Some("c"));
}

#[test]
fn ctx_add_updates_existing() {
    let mut cfg = CliConfig::new();
    cfg.ctx_add("a".to_string(), "http://a:1".to_string(), false);
    cfg.ctx_add("a".to_string(), "http://a:9".to_string(), false);
    assert_eq!(cfg.contexts.len(), 1);
    assert_eq!(cfg.ctx_lookup("a").as_deref(), Some("http://a:9"));
}

#[test]
fn ctx_use_requires_existing() {
    let mut cfg = CliConfig::new();
    cfg.ctx_add("a".to_string(), "http://a:1".to_string(), false);
    assert!(!cfg.ctx_use("missing".to_string()));
    assert_eq!(cfg.current.as_deref(), Some("a"));
    cfg.ctx_add("b".to_string(), "http://b:2".to_string(), false);
    assert!(cfg.ctx_use("b".to_string()));
    assert_eq!(cfg.current.as_deref(), Some("b"));
}

#[test]
fn ctx_rm_clears_current() {
    let mut cfg = CliConfig::new();
    cfg.ctx_add("a".to_string(), "http://a:1".to_string(), true);
    cfg.ctx_rm("a");
    assert!(cfg.ctx_lookup("a").is_none());
    assert!(cfg.current.is_none());
    cfg.ctx_rm("never-there");
    assert!(cfg.contexts.is_empty());
}

#[test]
fn ctx_entry_holds_url() {
    let e = CtxEntry { url: "http://x:1".to_string() };
    assert_eq!(e.url, "http://x:1");
}

#[test]
fn config_path_prefers_xdg() {
    let r = default_config_path(Some("/xdg".to_string()), Some("/home/u".to_string()));
    assert_eq!(r.unwrap(), "/xdg/rgbldk/config.toml");
}

#[test]
fn config_path_falls_back_to_home() {
    let r = default_config_path(None, Some("/home/u".to_string()));
    assert_eq!(r.unwrap(), "/home/u/.config/rgbldk/config.toml");
}

#[test]
fn config_path_errors_without_dirs() {
    let r = default_config_path(None, None);
    assert_eq!(
        r.unwrap_err(),
        "cannot determine config dir (missing $HOME and $XDG_CONFIG_HOME)"
    );
}
