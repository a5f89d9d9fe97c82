//! Request and response shapes of the daemon's HTTP API, held as plain
//! values, and the parsing of the keysend TLV command-line argument.

use vstd::prelude::*;
use vstd::string::StrSliceExecFns;
use vstd::string::StringExecFns;

use crate::strutil::find_char;
use crate::strutil::parse_u64;
use crate::strutil::spec_find;
use crate::strutil::spec_parse_u64;

verus! {

/// Node status response.
pub struct StatusDto {
    /// Whether the node runtime is running.
    pub is_running: bool,
    /// Whether the node is currently listening for inbound peers.
    pub is_listening: bool,
    /// Current best block height as seen by the node.
    pub best_block_height: u32,
}

/// Wallet and channel balance overview.
pub struct BalancesDto {
    /// Total confirmed on-chain balance in satoshis.
    pub total_onchain_balance_sats: u64,
    /// Spendable on-chain balance in satoshis.
    pub spendable_onchain_balance_sats: u64,
    /// Sum of sats reserved for anchor channels.
    pub total_anchor_channels_reserve_sats: u64,
    /// Total claimable Lightning balance in satoshis.
    pub total_lightning_balance_sats: u64,
}

/// Peer details entry.
pub struct PeerDetailsDto {
    /// Peer node id in hex.
    pub node_id: String,
    /// Selected address for the peer.
    pub address: String,
    /// Whether peer is persisted to peer store.
    pub is_persisted: bool,
    /// Whether peer is currently connected.
    pub is_connected: bool,
}

/// Request to connect to a peer.
pub struct PeerConnectRequest {
    /// Peer node id in hex.
    pub node_id: String,
    /// Socket address, e.g. `lnd1:9735`.
    pub address: String,
    /// Whether to persist the peer to disk.
    pub persist: bool,
}

/// Request to disconnect a peer.
pub struct PeerDisconnectRequest {
    /// Peer node id in hex.
    pub node_id: String,
}

/// Channel details entry (extended form).
pub struct ChannelDetailsExtendedDto {
    /// Channel id (32-byte hex).
    pub channel_id: String,
    /// User channel id (hex-encoded 16 bytes big-endian).
    pub user_channel_id: String,
    /// Counterparty node id (hex pubkey).
    pub counterparty_node_id: String,
    /// Funding outpoint formatted as `txid:vout` if known.
    pub channel_point: Option<String>,
    /// Total channel capacity in satoshis.
    pub channel_value_sats: u64,
    /// Sendable capacity in millisatoshis.
    pub outbound_capacity_msat: u64,
    /// Receivable capacity in millisatoshis.
    pub inbound_capacity_msat: u64,
    /// Whether channel is ready.
    pub is_channel_ready: bool,
    /// Whether channel is usable.
    pub is_usable: bool,
    /// Whether channel is announced.
    pub is_announced: bool,
    /// RGB asset balance in this channel, present only for RGB channels.
    pub rgb_balance: Option<RgbChannelBalanceDto>,
}

/// RGB asset balance in a channel.
pub struct RgbChannelBalanceDto {
    /// Asset id (hex-encoded 32 bytes).
    pub asset_id: String,
    /// Local (our) RGB balance in this channel.
    pub local_amount: u64,
    /// Remote (counterparty) RGB balance in this channel.
    pub remote_amount: u64,
}

/// Channel details entry.
pub struct ChannelDetailsDto {
    /// Channel id (32-byte hex).
    pub channel_id: String,
    /// Counterparty node id.
    pub counterparty_node_id: String,
    /// Whether channel is ready.
    pub is_channel_ready: bool,
    /// Whether channel is announced.
    pub is_announced: bool,
}

/// Request to decode a Bolt11 invoice.
pub struct Bolt11DecodeRequest {
    /// The Bolt11 invoice string.
    pub invoice: String,
}

/// Decoded Bolt11 invoice summary.
pub struct Bolt11DecodeResponse {
    /// Payment hash (hex).
    pub payment_hash: String,
    /// Destination node id (hex pubkey).
    pub destination: String,
    /// Amount in millisatoshis, if the invoice is fixed-amount.
    pub amount_msat: Option<u64>,
    /// Invoice expiry in seconds.
    pub expiry_secs: u64,
}

/// Request to pay a Bolt11 invoice and wait for completion.
pub struct Bolt11PayRequest {
    /// The Bolt11 invoice string.
    pub invoice: String,
    /// Amount in millisatoshis (required for variable-amount invoices).
    pub amount_msat: Option<u64>,
}

/// Response of a completed Bolt11 payment.
pub struct Bolt11PayResponse {
    /// Payment id (hex-encoded 32 bytes).
    pub payment_id: String,
    /// Payment preimage (hex-encoded 32 bytes).
    pub preimage: String,
    /// Amount paid in satoshis.
    pub amount_sats: u64,
    /// Destination node id (hex pubkey).
    pub destination: String,
    /// Fee paid in millisatoshis, if known.
    pub fee_paid_msat: Option<u64>,
}

/// Request to open a channel to a peer.
pub struct OpenChannelRequest {
    /// Counterparty node id (hex secp256k1 pubkey).
    pub node_id: String,
    /// Socket address of the counterparty as advertised.
    pub address: String,
    /// Channel capacity in satoshis.
    pub channel_amount_sats: u64,
    /// Optional initial push to counterparty in msat.
    pub push_to_counterparty_msat: Option<u64>,
    /// Whether to create an announced channel (default true).
    pub announce: Option<bool>,
}

/// Response of a successful channel open request.
pub struct OpenChannelResponse {
    /// User channel id (hex-encoded 16 bytes big-endian).
    pub user_channel_id: String,
}

/// Request to close or force-close a channel.
pub struct CloseChannelRequest {
    /// User channel id (hex-encoded 16 bytes big-endian).
    pub user_channel_id: String,
    /// Counterparty node id.
    pub counterparty_node_id: String,
}

/// Request to create a Bolt11 invoice.
pub struct Bolt11ReceiveRequest {
    /// Amount in millisatoshis.
    pub amount_msat: u64,
    /// Invoice description.
    pub description: String,
    /// Invoice expiry in seconds.
    pub expiry_secs: u32,
}

/// Response containing a newly created Bolt11 invoice.
pub struct Bolt11ReceiveResponse {
    /// The invoice string.
    pub invoice: String,
}

/// Request to create a variable-amount Bolt11 invoice.
pub struct Bolt11ReceiveVarRequest {
    /// Invoice description.
    pub description: String,
    /// Invoice expiry in seconds.
    pub expiry_secs: u32,
}

/// Request to pay a Bolt11 invoice.
pub struct Bolt11SendRequest {
    /// The Bolt11 invoice string.
    pub invoice: String,
}

/// Request to pay a Bolt11 invoice using a specified amount.
pub struct Bolt11SendUsingAmountRequest {
    /// The Bolt11 invoice string.
    pub invoice: String,
    /// Amount in millisatoshis to pay.
    pub amount_msat: u64,
}

/// Response containing the id of a sent payment.
pub struct SendResponse {
    /// Payment id (hex-encoded 32 bytes).
    pub payment_id: String,
}

/// Request to send a spontaneous (keysend) payment.
pub struct SpontaneousSendRequest {
    /// Counterparty node id (hex pubkey).
    pub counterparty_node_id: String,
    /// Amount in millisatoshis.
    pub amount_msat: u64,
    /// Optional custom TLV list.
    pub custom_tlvs: Vec<CustomTlvDto>,
}

/// Custom TLV record as passed to keysend.
pub struct CustomTlvDto {
    /// TLV type number.
    pub tlv_type: u64,
    /// Hex-encoded value bytes.
    pub value_hex: String,
}

/// Generic `{ error: "..." }` error response.
pub struct ErrorResponse {
    /// Human-readable error message.
    pub error: String,
}

/// Request to create a fixed-amount BOLT12 offer.
pub struct Bolt12OfferReceiveRequest {
    /// Amount in millisatoshis.
    pub amount_msat: u64,
    /// Offer description.
    pub description: String,
    /// Seconds from now; if omitted, offer does not expire.
    pub expiry_secs: Option<u32>,
    /// Optional item quantity.
    pub quantity: Option<u64>,
}

/// Request to create a variable-amount (zero-amount) BOLT12 offer.
pub struct Bolt12OfferReceiveVarRequest {
    /// Offer description.
    pub description: String,
    /// Seconds from now; if omitted, offer does not expire.
    pub expiry_secs: Option<u32>,
}

/// Response containing an encoded BOLT12 offer string.
pub struct Bolt12OfferResponse {
    /// Bech32-encoded offer (HRP `lno`).
    pub offer: String,
}

/// Request to decode a BOLT12 offer.
pub struct Bolt12OfferDecodeRequest {
    /// Bech32-encoded offer (HRP `lno`).
    pub offer: String,
}

/// Decoded BOLT12 offer summary.
pub struct Bolt12OfferDecodeResponse {
    /// Offer id (hex-encoded 32 bytes).
    pub offer_id: String,
    /// Issuer signing pubkey (hex), if present.
    pub signing_pubkey: Option<String>,
    /// Offer description, if present.
    pub description: Option<String>,
    /// Offer issuer, if present.
    pub issuer: Option<String>,
    /// Offer amount in millisatoshis, if fixed-amount.
    pub amount_msat: Option<u64>,
    /// Seconds since Unix epoch.
    pub absolute_expiry_unix_secs: Option<u64>,
    /// Chain hashes this offer supports (hex).
    pub chain_hashes: Vec<String>,
    /// Number of blinded message paths.
    pub paths_count: usize,
    /// Whether the offer expects a quantity in the invoice request.
    pub expects_quantity: bool,
}

/// Request to pay a BOLT12 offer.
pub struct Bolt12OfferSendRequest {
    /// Bech32-encoded offer (HRP `lno`).
    pub offer: String,
    /// Required for zero-amount offers; may overpay fixed-amount offers.
    pub amount_msat: Option<u64>,
    /// Optional item quantity.
    pub quantity: Option<u64>,
    /// Optional payer note to include in the invoice request.
    pub payer_note: Option<String>,
}

/// Request to initiate a BOLT12 refund (payer-side).
pub struct Bolt12RefundInitiateRequest {
    /// Amount in millisatoshis.
    pub amount_msat: u64,
    /// Refund expiry in seconds from now.
    pub expiry_secs: u32,
    /// Optional item quantity.
    pub quantity: Option<u64>,
    /// Optional payer note.
    pub payer_note: Option<String>,
}

/// Response of a successfully initiated refund.
pub struct Bolt12RefundInitiateResponse {
    /// Bech32-encoded refund (HRP `lnr`).
    pub refund: String,
    /// Payment id associated with the refund flow (hex-encoded 32 bytes).
    pub payment_id: String,
}

/// Request to decode a BOLT12 refund.
pub struct Bolt12RefundDecodeRequest {
    /// Bech32-encoded refund (HRP `lnr`).
    pub refund: String,
}

/// Decoded BOLT12 refund summary.
pub struct Bolt12RefundDecodeResponse {
    /// Refund description.
    pub description: String,
    /// Refund issuer, if present.
    pub issuer: Option<String>,
    /// Refund amount in millisatoshis.
    pub amount_msat: u64,
    /// Seconds since Unix epoch.
    pub absolute_expiry_unix_secs: Option<u64>,
    /// Chain hash the refund is valid for (hex).
    pub chain_hash: String,
    /// Payer signing pubkey (hex).
    pub payer_signing_pubkey: String,
    /// Optional payer note.
    pub payer_note: Option<String>,
    /// Optional item quantity.
    pub quantity: Option<u64>,
    /// Number of blinded message paths.
    pub paths_count: usize,
}

/// Request to respond to a refund by creating and sending an invoice.
pub struct Bolt12RefundRequestPaymentRequest {
    /// Bech32-encoded refund (HRP `lnr`).
    pub refund: String,
}

/// Response for a refund payment request.
pub struct Bolt12RefundRequestPaymentResponse {
    /// Informational only (bech32-encoded BOLT12 invoice, HRP `lni`).
    pub invoice: String,
    /// Informational only (raw TLV bytes hex-encoded).
    pub invoice_hex: String,
    /// Payment id for tracking the inbound refund payment.
    pub payment_id: String,
}

/// A `--tlv` command-line argument: a TLV type number and hex value.
#[derive(Debug)]
pub struct TlvArg {
    /// TLV type number.
    pub tlv_type: u64,
    /// Hex-encoded value bytes.
    pub value_hex: String,
}

/// Parses a `--tlv` argument of the form `<type>:<hex>`: the text before
/// the first colon must parse as an unsigned 64-bit decimal; everything
/// after it is the hex value, taken verbatim.
pub fn parse_tlv_arg(s: &str) -> (r: Result<TlvArg, String>)
    ensures
        spec_find(s@, ':') is None ==> (r matches Err(e) && e@
            == "invalid --tlv (expected <type>:<hex>)"@),
        spec_find(s@, ':') matches Some(i) ==> (match spec_parse_u64(s@.take(i)) {
            Some(v) => r matches Ok(t) && t.tlv_type == v && t.value_hex@ == s@.skip(i + 1),
            None => r matches Err(e) && e@ == "invalid --tlv type"@,
        }),
{
    let n = s.unicode_len();
    match find_char(s, ':') {
        None => Err("invalid --tlv (expected <type>:<hex>)".to_owned()),
        Some(i) => {
            let head = s.substring_char(0, i);
            proof {
                assert(head@ =~= s@.take(i as int));
            }
            match parse_u64(head) {
                Some(v) => {
                    let hex = s.substring_char(i + 1, n).to_owned();
                    proof {
                        assert(hex@ =~= s@.skip(i + 1));
                    }
                    Ok(TlvArg { tlv_type: v, value_hex: hex })
                },
                None => Err("invalid --tlv type".to_owned()),
            }
        },
    }
}

} // verus!
