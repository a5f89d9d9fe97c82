use rgbldk::fmt::format_balance_sats;
use rgbldk::fmt::format_btc_from_sats;
use rgbldk::fmt::format_sats_with_commas;
use rgbldk::fmt::format_u64_with_commas;
use rgbldk::fmt::truncate_id;

#[test]
fn commas_small_values() {
    assert_eq!(format_sats_with_commas(0), "0");
    assert_eq!(format_sats_with_commas(7), "7");
    assert_eq!(format_sats_with_commas(999), "999");
}

#[test]
fn commas_grouping() {
    assert_eq!(format_sats_with_commas(1000), "1,000");
    assert_eq!(format_sats_with_commas(123456), "123,456");
    assert_eq!(format_sats_with_commas(1234567), "1,234,567");
    assert_eq!(format_sats_with_commas(250_000_000), "250,000,000");
    assert_eq!(format_u64_with_commas(u64::MAX), "18,446,744,073,709,551,615");
}

#[test]
fn btc_trims_trailing_zeros() {
    assert_eq!(format_btc_from_sats(250_000_000), "2.5 BTC");
    assert_eq!(format_btc_from_sats(100_000_000), "1.0 BTC");
    assert_eq!(format_btc_from_sats(150_000_000), "1.5 BTC");
    assert_eq!(format_btc_from_sats(123_456_789), "1.23456789 BTC");
    assert_eq!(format_btc_from_sats(100_000_001), "1.00000001 BTC");
    assert_eq!(format_btc_from_sats(2_100_000_000_000_000), "21000000.0 BTC");
    assert_eq!(format_btc_from_sats(u64::MAX), "184467440737.09551615 BTC");
    assert_eq!(format_btc_from_sats(0), "0.0 BTC");
}

#[test]
fn balance_threshold_rule() {
    assert_eq!(format_balance_sats(99_999_999, false), "99,999,999 sats");
    assert_eq!(format_balance_sats(100_000_000, false), "1.0 BTC");
    assert_eq!(format_balance_sats(250_000_000, false), "2.5 BTC");
    assert_eq!(format_balance_sats(0, false), "0 sats");
}

#[test]
fn balance_forced_sats() {
    assert_eq!(format_balance_sats(250_000_000, true), "250,000,000 sats");
    assert_eq!(format_balance_sats(12, true), "12 sats");
}

#[test]
fn truncate_short_ids_identity() {
    assert_eq!(truncate_id(""), "");
    assert_eq!(truncate_id("abc"), "abc");
    assert_eq!(truncate_id("0123456789abcdef012"), "0123456789abcdef012");
}

#[test]
fn truncate_long_ids() {
    let id = "0123456789abcdef0123";
    let t = truncate_id(id);
    assert_eq!(t, "01234567...cdef0123");
    assert_eq!(t.chars().count(), 19);
    let node_id = "02a1b2c3d4e5f60718293a4b5c6d7e8f9002a1b2c3d4e5f60718293a4b5c6d7e8f";
    let t2 = truncate_id(node_id);
    assert_eq!(t2, "02a1b2c3...5c6d7e8f");
    assert_eq!(t2.chars().count(), 19);
}
