//! Quantity and identifier formatting: thousands grouping, sats/BTC
//! conversion, and display-only truncation of long hex identifiers.

use vstd::prelude::*;
use vstd::string::StrSliceExecFns;
use vstd::string::StringExecFns;

use crate::strutil::spec_dec;
use crate::strutil::u64_to_dec;

verus! {

/// Satoshis per bitcoin; at or above this quantity a balance is shown in BTC.
pub const SATS_PER_BTC: u64 = 100_000_000;

/// `s` with a comma inserted every three characters, counting from the right.
pub open spec fn spec_grouped(s: Seq<char>) -> Seq<char>
    decreases s.len(),
{
    if s.len() <= 3 {
        s
    } else {
        spec_grouped(s.take(s.len() - 3)) + seq![','] + s.skip(s.len() - 3)
    }
}

fn group_chars(s: &str) -> (r: String)
    ensures
        r@ == spec_grouped(s@),
    decreases s@.len(),
{
    let n = s.unicode_len();
    if n <= 3 {
        s.to_owned()
    } else {
        let head = s.substring_char(0, n - 3);
        let tail = s.substring_char(n - 3, n);
        let mut r = group_chars(head);
        r.append(",");
        r.append(tail);
        proof {
            reveal_strlit(",");
            assert(","@ =~= seq![',']);
            assert(r@ =~= spec_grouped(s@.take(s@.len() - 3)) + seq![','] + s@.skip(s@.len() - 3));
        }
        r
    }
}

/// Decimal rendering of `v` grouped with commas every three digits.
pub open spec fn spec_commas(v: nat) -> Seq<char> {
    spec_grouped(spec_dec(v))
}

/// Renders a satoshi quantity in decimal with thousands separators.
pub fn format_sats_with_commas(v: u64) -> (r: String)
    ensures
        r@ == spec_commas(v as nat),
{
    let d = u64_to_dec(v);
    group_chars(d.as_str())
}

/// Renders any unsigned quantity in decimal with thousands separators.
pub fn format_u64_with_commas(v: u64) -> (r: String)
    ensures
        r@ == spec_commas(v as nat),
{
    format_sats_with_commas(v)
}

/// `s` with trailing `'0'` characters removed, but never shortened below
/// one character.
pub open spec fn spec_trim_zeros(s: Seq<char>) -> Seq<char>
    decreases s.len(),
{
    if s.len() <= 1 {
        s
    } else if s.last() == '0' {
        spec_trim_zeros(s.drop_last())
    } else {
        s
    }
}

fn trim_trailing_zeros(s: &str) -> (r: String)
    ensures
        r@ == spec_trim_zeros(s@),
    decreases s@.len(),
{
    let n = s.unicode_len();
    if n <= 1 {
        s.to_owned()
    } else if s.get_char(n - 1) == '0' {
        let head = s.substring_char(0, n - 1);
        proof {
            assert(head@ =~= s@.drop_last());
        }
        trim_trailing_zeros(head)
    } else {
        s.to_owned()
    }
}

spec fn pow10(k: nat) -> nat
    decreases k,
{
    if k == 0 {
        1
    } else {
        10 * pow10((k - 1) as nat)
    }
}

proof fn lemma_dec_len_le(v: nat, k: nat)
    requires
        v < pow10(k),
        k >= 1,
    ensures
        spec_dec(v).len() <= k,
    decreases k,
{
    if v < 10 {
        assert(spec_dec(v).len() == 1);
    } else {
        assert(pow10(1) == 10) by {
            reveal_with_fuel(pow10, 2);
        }
        assert(k >= 2);
        assert(v / 10 < pow10((k - 1) as nat));
        lemma_dec_len_le(v / 10, (k - 1) as nat);
    }
}

/// The fractional part of a BTC rendering: the eight-digit zero-padded
/// sub-BTC remainder with trailing zeros trimmed down to at least one digit.
pub open spec fn spec_btc_frac(frac: nat) -> Seq<char> {
    spec_trim_zeros(Seq::new((8 - spec_dec(frac).len()) as nat, |i: int| '0') + spec_dec(frac))
}

/// A satoshi quantity rendered as a BTC value: whole part, a dot, the
/// trimmed fractional digits, and a `" BTC"` suffix.
pub open spec fn spec_btc(sats: nat) -> Seq<char> {
    spec_dec(sats / (SATS_PER_BTC as nat)) + seq!['.'] + spec_btc_frac(
        sats % (SATS_PER_BTC as nat),
    ) + " BTC"@
}

/// Renders a satoshi quantity as BTC, e.g. `"2.5 BTC"`; up to eight
/// fractional digits with trailing zeros trimmed, at least one kept.
pub fn format_btc_from_sats(sats: u64) -> (r: String)
    ensures
        r@ == spec_btc(sats as nat),
{
    let whole = sats / SATS_PER_BTC;
    let frac = sats % SATS_PER_BTC;
    let mut r = u64_to_dec(whole);
    r.append(".");
    let fd = u64_to_dec(frac);
    let fdl = fd.unicode_len();
    proof {
        assert(pow10(8) == 100_000_000) by {
            reveal_with_fuel(pow10, 9);
        }
        lemma_dec_len_le(frac as nat, 8);
    }
    let mut padded = String::new();
    let mut i: usize = fdl;
    while i < 8
        invariant
            fdl <= i <= 8,
            padded@ =~= Seq::new((i - fdl) as nat, |j: int| '0'),
        decreases 8 - i,
    {
        padded.append("0");
        proof {
            reveal_strlit("0");
            assert(padded@ =~= Seq::new((i + 1 - fdl) as nat, |j: int| '0'));
        }
        i += 1;
    }
    padded.append(fd.as_str());
    let trimmed = trim_trailing_zeros(padded.as_str());
    r.append(trimmed.as_str());
    r.append(" BTC");
    proof {
        reveal_strlit(".");
        assert("."@ =~= seq!['.']);
        assert(padded@ =~= Seq::new((8 - spec_dec(frac as nat).len()) as nat, |j: int| '0')
            + spec_dec(frac as nat));
        assert(r@ =~= spec_btc(sats as nat));
    }
    r
}

/// The balance rendering rule: forced-sats mode and quantities below one
/// BTC render as a grouped integer with a `" sats"` suffix; otherwise the
/// quantity renders as BTC.
pub open spec fn spec_balance(sats: nat, force_sats: bool) -> Seq<char> {
    if force_sats || sats < SATS_PER_BTC as nat {
        spec_commas(sats) + " sats"@
    } else {
        spec_btc(sats)
    }
}

/// Renders a satoshi balance, converting to BTC at or above one BTC
/// unless `force_sats` keeps the display in satoshis.
pub fn format_balance_sats(sats: u64, force_sats: bool) -> (r: String)
    ensures
        r@ == spec_balance(sats as nat, force_sats),
{
    if !force_sats && sats >= SATS_PER_BTC {
        format_btc_from_sats(sats)
    } else {
        let mut r = format_sats_with_commas(sats);
        r.append(" sats");
        r
    }
}

/// Display truncation of an id-like string: strings of more than 19
/// characters keep their first eight and last eight characters around an
/// ellipsis; shorter strings pass through unchanged.
pub open spec fn spec_truncate(s: Seq<char>) -> Seq<char> {
    if s.len() <= 19 {
        s
    } else {
        s.take(8) + "..."@ + s.skip(s.len() - 8)
    }
}

/// Truncates a long identifier for display; never used to build requests.
pub fn truncate_id(s: &str) -> (r: String)
    ensures
        r@ == spec_truncate(s@),
{
    let n = s.unicode_len();
    if n <= 19 {
        s.to_owned()
    } else {
        let mut r = s.substring_char(0, 8).to_owned();
        r.append("...");
        r.append(s.substring_char(n - 8, n));
        proof {
            assert(r@ =~= spec_truncate(s@));
        }
        r
    }
}

/// Truncation keeps short strings intact and reduces any longer string to
/// exactly 19 characters: the first eight, an ellipsis, and the last eight.
pub proof fn lemma_truncate_shape(s: Seq<char>)
    ensures
        s.len() <= 19 ==> spec_truncate(s) == s,
        s.len() > 19 ==> spec_truncate(s).len() == 19,
        s.len() > 19 ==> spec_truncate(s) == s.take(8) + "..."@ + s.skip(s.len() - 8),
{
    reveal_strlit("...");
}

/// Balance formatting is shape-consistent: below one BTC (and not forced)
/// the rendering is the grouped integer with a `" sats"` suffix; at or
/// above one BTC it is a dotted BTC figure whose fractional digits never
/// end in a redundant zero.
pub proof fn lemma_balance_shape(sats: nat)
    ensures
        sats < SATS_PER_BTC as nat ==> spec_balance(sats, false) == spec_commas(sats) + " sats"@,
        sats >= SATS_PER_BTC as nat ==> spec_balance(sats, false) == spec_dec(
            sats / (SATS_PER_BTC as nat),
        ) + seq!['.'] + spec_btc_frac(sats % (SATS_PER_BTC as nat)) + " BTC"@,
        spec_btc_frac(sats % (SATS_PER_BTC as nat)).len() > 1 ==> spec_btc_frac(
            sats % (SATS_PER_BTC as nat),
        ).last() != '0',
{
    lemma_trim_zeros_no_tail(
        Seq::new((8 - spec_dec(sats % (SATS_PER_BTC as nat)).len()) as nat, |i: int| '0')
            + spec_dec(sats % (SATS_PER_BTC as nat)),
    );
}

proof fn lemma_trim_zeros_no_tail(s: Seq<char>)
    ensures
        spec_trim_zeros(s).len() > 1 ==> spec_trim_zeros(s).last() != '0',
    decreases s.len(),
{
    if s.len() > 1 && s.last() == '0' {
        lemma_trim_zeros_no_tail(s.drop_last());
    }
}

} // verus!
