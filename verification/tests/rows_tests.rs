use rgbldk::config::CliConfig;
use rgbldk::dto::BalancesDto;
use rgbldk::dto::Bolt12OfferDecodeResponse;
use rgbldk::dto::Bolt12RefundDecodeResponse;
use rgbldk::dto::ChannelDetailsExtendedDto;
use rgbldk::dto::PeerDetailsDto;
use rgbldk::dto::StatusDto;
use rgbldk::rows::balance_rows;
use rgbldk::rows::bool_text;
use rgbldk::rows::channel_rows;
use rgbldk::rows::ctx_rows;
use rgbldk::rows::join_comma;
use rgbldk::rows::offer_decode_rows;
use rgbldk::rows::peer_rows;
use rgbldk::rows::refund_decode_rows;
use rgbldk::rows::status_rows;
use rgbldk::rows::wallet_sync_lines;

fn balances(total: u64, spendable: u64, reserve: u64, lightning: u64) -> BalancesDto {
    BalancesDto {
        total_onchain_balance_sats: total,
        spendable_onchain_balance_sats: spendable,
        total_anchor_channels_reserve_sats: reserve,
        total_lightning_balance_sats: lightning,
    }
}

#[test]
fn bool_cells() {
    assert_eq!(bool_text(true), "true");
    assert_eq!(bool_text(false), "false");
}

#[test]
fn status_view_rows() {
    let s = StatusDto { is_running: true, is_listening: false, best_block_height: 123456 };
    assert_eq!(
        status_rows(&s),
        vec![
            vec!["is_running".to_string(), "true".to_string()],
            vec!["p2p_is_listening".to_string(), "false".to_string()],
            vec!["best_block_height".to_string(), "123456".to_string()],
        ]
    );
}

#[test]
fn balance_view_rows() {
    let b = balances(250_000_000, 99_000_000, 0, 1_000);
    let rows = balance_rows(&b, false);
    assert_eq!(rows[0], vec!["On-chain (total)".to_string(), "2.5 BTC".to_string()]);
    assert_eq!(rows[1], vec!["On-chain (spendable)".to_string(), "99,000,000 sats".to_string()]);
    assert_eq!(rows[2], vec!["Anchor reserve".to_string(), "0 sats".to_string()]);
    assert_eq!(rows[3], vec!["Lightning (total)".to_string(), "1,000 sats".to_string()]);
    let forced = balance_rows(&b, true);
    assert_eq!(forced[0], vec!["On-chain (total)".to_string(), "250,000,000 sats".to_string()]);
}

#[test]
fn peer_view_rows() {
    let ps = vec![PeerDetailsDto {
        node_id: "02a1b2c3d4e5f60718293a4b5c6d7e8f90".to_string(),
        address: "lnd1:9735".to_string(),
        is_persisted: true,
        is_connected: false,
    }];
    let rows = peer_rows(&ps, false);
    assert_eq!(
        rows,
        vec![vec![
            "02a1b2c3...6d7e8f90".to_string(),
            "lnd1:9735".to_string(),
            "false".to_string(),
            "true".to_string(),
        ]]
    );
    let full = peer_rows(&ps, true);
    assert_eq!(full[0][0], "02a1b2c3d4e5f60718293a4b5c6d7e8f90");
}

#[test]
fn channel_view_rows() {
    let cs = vec![ChannelDetailsExtendedDto {
        channel_id: "aa".to_string(),
        user_channel_id: "0123456789abcdef0123456789abcdef".to_string(),
        counterparty_node_id: "02ffffffffffffffffffffffffffffffffff".to_string(),
        channel_point: None,
        channel_value_sats: 1_000_000,
        outbound_capacity_msat: 1,
        inbound_capacity_msat: 2,
        is_channel_ready: true,
        is_usable: false,
        is_announced: true,
        rgb_balance: None,
    }];
    let rows = channel_rows(&cs, false);
    assert_eq!(
        rows,
        vec![vec![
            "01234567...89abcdef".to_string(),
            "02ffffff...ffffffff".to_string(),
            "1000000".to_string(),
            "true".to_string(),
            "false".to_string(),
        ]]
    );
}

#[test]
fn ctx_view_rows() {
    let mut cfg = CliConfig::new();
    cfg.ctx_add("dev".to_string(), "http://d:1".to_string(), false);
    cfg.ctx_add("prod".to_string(), "http://p:2".to_string(), true);
    assert_eq!(
        ctx_rows(&cfg),
        vec![
            vec!["".to_string(), "dev".to_string(), "http://d:1".to_string()],
            vec!["*".to_string(), "prod".to_string(), "http://p:2".to_string()],
        ]
    );
}

#[test]
fn offer_decode_view_rows() {
    let o = Bolt12OfferDecodeResponse {
        offer_id: "oid".to_string(),
        signing_pubkey: None,
        description: Some("coffee".to_string()),
        issuer: None,
        amount_msat: Some(1234567),
        absolute_expiry_unix_secs: Some(1700000000),
        chain_hashes: vec!["h1".to_string(), "h2".to_string()],
        paths_count: 2,
        expects_quantity: false,
    };
    let rows = offer_decode_rows(&o);
    assert_eq!(rows[0], vec!["offer_id".to_string(), "oid".to_string()]);
    assert_eq!(rows[1], vec!["signing_pubkey".to_string(), "-".to_string()]);
    assert_eq!(rows[2], vec!["description".to_string(), "coffee".to_string()]);
    assert_eq!(rows[3], vec!["issuer".to_string(), "-".to_string()]);
    assert_eq!(rows[4], vec!["amount_msat".to_string(), "1,234,567".to_string()]);
    assert_eq!(rows[5], vec!["absolute_expiry_unix_secs".to_string(), "1700000000".to_string()]);
    assert_eq!(rows[6], vec!["paths_count".to_string(), "2".to_string()]);
    assert_eq!(rows[7], vec!["expects_quantity".to_string(), "false".to_string()]);
    assert_eq!(rows[8], vec!["chain_hashes".to_string(), "h1, h2".to_string()]);
}

#[test]
fn refund_decode_view_rows() {
    let o = Bolt12RefundDecodeResponse {
        description: "refund me".to_string(),
        issuer: None,
        amount_msat: 5000,
        absolute_expiry_unix_secs: None,
        chain_hash: "ch".to_string(),
        payer_signing_pubkey: "pk".to_string(),
        payer_note: Some("note".to_string()),
        quantity: None,
        paths_count: 0,
    };
    let rows = refund_decode_rows(&o);
    assert_eq!(rows[0], vec!["description".to_string(), "refund me".to_string()]);
    assert_eq!(rows[2], vec!["amount_msat".to_string(), "5,000".to_string()]);
    assert_eq!(rows[3], vec!["absolute_expiry_unix_secs".to_string(), "-".to_string()]);
    assert_eq!(rows[6], vec!["payer_note".to_string(), "note".to_string()]);
    assert_eq!(rows[7], vec!["quantity".to_string(), "-".to_string()]);
    assert_eq!(rows[8], vec!["paths_count".to_string(), "0".to_string()]);
}

#[test]
fn join_comma_lists() {
    assert_eq!(join_comma(&vec![]), "");
    assert_eq!(join_comma(&vec!["a".to_string()]), "a");
    assert_eq!(join_comma(&vec!["a".to_string(), "b".to_string(), "c".to_string()]), "a, b, c");
}

#[test]
fn sync_lines_no_change() {
    let b = balances(10, 10, 0, 5);
    let lines = wallet_sync_lines(&b, &balances(10, 10, 0, 5));
    assert_eq!(lines, vec!["Wallet synced.".to_string(), "No balance change.".to_string()]);
}

#[test]
fn sync_lines_with_deltas() {
    let before = balances(100_000, 50_000, 0, 300_000_000);
    let after = balances(350_000, 50_000, 0, 50_000_000);
    let lines = wallet_sync_lines(&before, &after);
    assert_eq!(lines[0], "Wallet synced.");
    assert_eq!(
        lines[1],
        "Balance change: on-chain total +250,000 sats, spendable 0 sats, lightning -2.5 BTC."
    );
}
