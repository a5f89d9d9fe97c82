//! Response-envelope classification: one HTTP exchange yields either a
//! body to decode or a refusal whose message is extracted from the body.
//!
//! A status in the 2xx range — or in the caller's allowed set — means the
//! body is decoded as the expected shape (readiness uses this to treat a
//! 503 body as valid data). Any other status is refused with the body's
//! `"error"` field when present, else the body's lossily decoded text.
//! Transport failures never reach this layer; they are fatal before a
//! status exists.

use vstd::prelude::*;
use vstd::string::StrSliceExecFns;
use vstd::string::StringExecFns;

verus! {

/// `s` without trailing `'/'` characters.
pub open spec fn spec_trim_end_slashes(s: Seq<char>) -> Seq<char>
    decreases s.len(),
{
    if s.len() > 0 && s.last() == '/' {
        spec_trim_end_slashes(s.drop_last())
    } else {
        s
    }
}

/// `s` without leading `'/'` characters.
pub open spec fn spec_trim_start_slashes(s: Seq<char>) -> Seq<char>
    decreases s.len(),
{
    if s.len() > 0 && s[0] == '/' {
        spec_trim_start_slashes(s.skip(1))
    } else {
        s
    }
}

/// The base URL and path joined with exactly one `'/'` between them.
pub open spec fn spec_join_url(base: Seq<char>, path: Seq<char>) -> Seq<char> {
    spec_trim_end_slashes(base) + seq!['/'] + spec_trim_start_slashes(path)
}

fn trim_end_slashes(s: &str) -> (r: String)
    ensures
        r@ == spec_trim_end_slashes(s@),
    decreases s@.len(),
{
    let n = s.unicode_len();
    if n > 0 && s.get_char(n - 1) == '/' {
        let head = s.substring_char(0, n - 1);
        proof {
            assert(head@ =~= s@.drop_last());
        }
        trim_end_slashes(head)
    } else {
        s.to_owned()
    }
}

fn trim_start_slashes<'a>(s: &'a str) -> (r: &'a str)
    ensures
        r@ == spec_trim_start_slashes(s@),
    decreases s@.len(),
{
    let n = s.unicode_len();
    if n > 0 && s.get_char(0) == '/' {
        let tail = s.substring_char(1, n);
        proof {
            assert(tail@ =~= s@.skip(1));
        }
        trim_start_slashes(tail)
    } else {
        s
    }
}

/// Joins a base URL and a path with a single `'/'`, whatever trailing or
/// leading slashes either carries.
pub fn join_url(base: &str, path: &str) -> (r: String)
    ensures
        r@ == spec_join_url(base@, path@),
{
    let mut r = trim_end_slashes(base);
    r.append("/");
    r.append(trim_start_slashes(path));
    proof {
        reveal_strlit("/");
        assert("/"@ =~= seq!['/']);
        assert(r@ =~= spec_join_url(base@, path@));
    }
    r
}

/// The `"error"` string field of `body` when it parses as a JSON object
/// carrying one; what serde_json extracts from the bytes.
pub uninterp spec fn json_error_field(body: Seq<u8>) -> Option<Seq<char>>;

/// The lossy UTF-8 decoding of `body`; what std's `from_utf8_lossy`
/// yields on the bytes.
pub uninterp spec fn lossy_text(body: Seq<u8>) -> Seq<char>;

/// Relies on serde_json's `from_slice`, `Value::get` and `Value::as_str`:
/// returns the `"error"` string field of the body when the body is a JSON
/// object with one, `None` otherwise; a pure function of the bytes.
#[verifier::external_body]
fn body_error_field(body: &Vec<u8>) -> (r: Option<String>)
    ensures
        match r {
            Some(m) => json_error_field(body@) == Some(m@),
            None => json_error_field(body@) is None,
        },
{
    let v: Option<serde_json::Value> = serde_json::from_slice(body.as_slice()).ok();
    v.and_then(|v| v.get("error").and_then(|e| e.as_str()).map(|s| s.to_string()))
}

/// Relies on std's `String::from_utf8_lossy`: invalid UTF-8 sequences are
/// replaced with U+FFFD; ASCII bytes always decode to themselves.
#[verifier::external_body]
fn utf8_lossy(body: &Vec<u8>) -> (r: String)
    ensures
        r@ == lossy_text(body@),
        (forall|i: int| 0 <= i < body@.len() ==> body@[i] < 128) ==> r@ == body@.map_values(
            |b: u8| b as char,
        ),
{
    String::from_utf8_lossy(body.as_slice()).into_owned()
}

/// Whether `status` is a 2xx success status.
pub open spec fn spec_is_success(status: int) -> bool {
    200 <= status < 300
}

/// Whether a reply with `status` proceeds to body decoding: a success
/// status, or one the caller explicitly allowed.
pub open spec fn spec_reply_decodes(status: u16, allowed: Seq<u16>) -> bool {
    spec_is_success(status as int) || allowed.contains(status)
}

/// The refusal message for a non-decoded reply: the body's `"error"`
/// field when present, else the body's lossy text.
pub open spec fn spec_error_message(body: Seq<u8>) -> Seq<char> {
    match json_error_field(body) {
        Some(m) => m,
        None => lossy_text(body),
    }
}

/// Classification of one completed exchange.
pub enum ReplyClass {
    /// The body is to be decoded as the expected type.
    DecodeBody,
    /// The server refused the call; the message explains why.
    Refused(String),
}

/// The result of an exchange whose body was decoded: the decoded value,
/// or the failure message (a server refusal or a decode diagnostic).
pub enum Envelope<T> {
    Decoded(T),
    Failed(String),
}

/// Whether `status` lies in the 2xx success range.
pub fn status_is_success(status: u16) -> (r: bool)
    ensures
        r == spec_is_success(status as int),
{
    200 <= status && status < 300
}

fn status_in(allowed: &Vec<u16>, status: u16) -> (r: bool)
    ensures
        r == allowed@.contains(status),
{
    let mut i: usize = 0;
    while i < allowed.len()
        invariant
            i <= allowed.len(),
            forall|j: int| 0 <= j < i ==> allowed@[j] != status,
        decreases allowed.len() - i,
    {
        if allowed[i] == status {
            return true;
        }
        i += 1;
    }
    false
}

/// Extracts the refusal message from a non-decoded reply body.
pub fn extract_error_message(body: &Vec<u8>) -> (r: String)
    ensures
        r@ == spec_error_message(body@),
{
    match body_error_field(body) {
        Some(m) => m,
        None => utf8_lossy(body),
    }
}

/// Classifies one completed exchange: a success status or an allowed
/// status proceeds to decoding; anything else is refused with the body's
/// error message.
pub fn classify_reply(status: u16, allowed: &Vec<u16>, body: &Vec<u8>) -> (r: ReplyClass)
    ensures
        spec_reply_decodes(status, allowed@) ==> r == ReplyClass::DecodeBody,
        !spec_reply_decodes(status, allowed@) ==> (r matches ReplyClass::Refused(m) && m@
            == spec_error_message(body@)),
{
    if status_is_success(status) || status_in(allowed, status) {
        ReplyClass::DecodeBody
    } else {
        ReplyClass::Refused(extract_error_message(body))
    }
}

/// Seals the envelope after the body of a decodable reply was fed to the
/// decoder: a decoded value is the envelope's value; a decode diagnostic
/// is a failure of its own kind, distinct from a server refusal.
pub fn envelope_of_decode<T>(decoded: Result<T, String>) -> (e: Envelope<T>)
    ensures
        decoded matches Ok(v) ==> e == Envelope::<T>::Decoded(v),
        decoded matches Err(d) ==> e == Envelope::<T>::Failed(d),
{
    match decoded {
        Ok(v) => Envelope::Decoded(v),
        Err(d) => Envelope::Failed(d),
    }
}

/// A 2xx reply is always decoded; a non-2xx reply outside the allowed set
/// is refused with the body's `"error"` field when the body carries one,
/// else with the body's lossy text.
pub proof fn lemma_envelope_decode(status: u16, allowed: Seq<u16>, body: Seq<u8>)
    ensures
        spec_is_success(status as int) ==> spec_reply_decodes(status, allowed),
        json_error_field(body) matches Some(m) ==> spec_error_message(body) == m,
        json_error_field(body) is None ==> spec_error_message(body) == lossy_text(body),
{
}

/// An allowed non-2xx status (readiness allows 503) is decoded like a
/// success: the structured body reaches the caller as data, not as an
/// error.
pub proof fn lemma_allowed_status_decodes(status: u16, allowed: Seq<u16>)
    requires
        allowed.contains(status),
    ensures
        spec_reply_decodes(status, allowed),
{
}

} // verus!
