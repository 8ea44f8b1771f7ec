//! The status-tagged value codec: one storable string holds an HTTP status
//! together with a response body, so a cache row can represent either a
//! cached success or a cached upstream failure.
//!
//! The status is a fixed-width three-digit header placed before the body.
//! Decoding reads the header at a known position and never splits on a
//! separator, so the codec is unambiguous whatever characters the body
//! holds.

use vstd::prelude::*;

use crate::errors::{is_upstream_err, ApiError};
use crate::strutil::{digit_char, digit_val, is_digit, u64_to_string};

verus! {

/// The lowest status the codec accepts.
pub const MIN_STATUS: u16 = 100;

/// The highest status the codec accepts.
pub const MAX_STATUS: u16 = 599;

/// The three-digit header for a status in `[100, 599]`.
pub open spec fn status_digits(status: u16) -> Seq<char> {
    seq![
        digit_char(status as int / 100),
        digit_char((status as int / 10) % 10),
        digit_char(status as int % 10),
    ]
}

/// The encoded form: the fixed-width status header, then the body verbatim.
pub open spec fn encode_spec(status: u16, body: Seq<char>) -> Seq<char> {
    status_digits(status).add(body)
}

/// The decoded form of a stored value: the status and body when the value
/// begins with a valid three-digit header in `[100, 599]`, and nothing
/// otherwise.
pub open spec fn decode_spec(v: Seq<char>) -> Option<(u16, Seq<char>)> {
    if v.len() >= 3 && is_digit(v[0]) && is_digit(v[1]) && is_digit(v[2]) {
        let status = digit_val(v[0]) * 100 + digit_val(v[1]) * 10 + digit_val(v[2]);
        if MIN_STATUS <= status <= MAX_STATUS {
            Some((status as u16, v.skip(3)))
        } else {
            None
        }
    } else {
        None
    }
}

/// Encodes a status and body into one storable string.
pub fn encode(status: u16, body: &str) -> (r: String)
    requires
        MIN_STATUS <= status <= MAX_STATUS,
    ensures
        r@ == encode_spec(status, body@),
{
    let header = u64_to_string(status as u64);
    proof {
        lemma_status_dec_digits(status);
    }
    let r = header.concat(body);
    proof {
        assert(r@ =~= encode_spec(status, body@));
    }
    r
}

/// A three-digit status formats to exactly its header digits.
proof fn lemma_status_dec_digits(status: u16)
    requires
        MIN_STATUS <= status <= MAX_STATUS,
    ensures
        crate::strutil::dec_digits(status as nat) =~= status_digits(status),
{
    let n = status as nat;
    assert(crate::strutil::dec_digits(n / 10 / 10) =~= seq![digit_char(n as int / 100)]);
    assert(crate::strutil::dec_digits(n / 10) =~= seq![digit_char(n as int / 100)].push(
        digit_char((n as int / 10) % 10),
    ));
}

/// Decodes a stored value into its status and body.
pub fn decode(value: &str) -> (r: Option<(u16, String)>)
    ensures
        match r {
            Some((status, body)) => decode_spec(value@) == Some((status, body@)),
            None => decode_spec(value@) is None,
        },
{
    let len = value.unicode_len();
    if len < 3 {
        return None;
    }
    let c0 = value.get_char(0) as u32;
    let c1 = value.get_char(1) as u32;
    let c2 = value.get_char(2) as u32;
    if c0 < 48 || c0 > 57 || c1 < 48 || c1 > 57 || c2 < 48 || c2 > 57 {
        return None;
    }
    let status: u32 = (c0 - 48) * 100 + (c1 - 48) * 10 + (c2 - 48);
    if status < 100 || status > 599 {
        return None;
    }
    let body = value.substring_char(3, len);
    proof {
        assert(body@ =~= value@.skip(3));
    }
    Some((status as u16, body.to_owned()))
}

/// Turns a stored value into the outcome it recorded: the body as success
/// when the status is below 400, the upstream error with that status and
/// body otherwise, and a serialization error when the value is malformed.
pub open spec fn to_result_rel(v: Seq<char>, r: Result<String, ApiError>) -> bool {
    match decode_spec(v) {
        Some((status, body)) => if status < 400 {
            r matches Ok(s) && s@ == body
        } else {
            is_upstream_err(r, status, body)
        },
        None => r matches Err(ApiError::Serialization { .. }),
    }
}

/// Reads a cached row back as the result of the call that produced it.
pub fn to_result(value: &str) -> (r: Result<String, ApiError>)
    ensures
        to_result_rel(value@, r),
{
    match decode(value) {
        Some((status, body)) => {
            if status < 400 {
                Ok(body)
            } else {
                Err(ApiError::Upstream { status, body })
            }
        },
        None => Err(
            ApiError::Serialization { details: "malformed status-tagged cache value".to_owned() },
        ),
    }
}

/// Round-trip law: decoding an encoded value recovers exactly the status
/// and body, for every status in `[100, 599]` and every body string.
pub proof fn lemma_codec_round_trip(status: u16, body: Seq<char>)
    requires
        MIN_STATUS <= status <= MAX_STATUS,
    ensures
        decode_spec(encode_spec(status, body)) == Some((status, body)),
{
    let v = encode_spec(status, body);
    assert(v[0] == digit_char(status as int / 100));
    assert(v[1] == digit_char((status as int / 10) % 10));
    assert(v[2] == digit_char(status as int % 10));
    assert(digit_val(v[0]) == status as int / 100);
    assert(digit_val(v[1]) == (status as int / 10) % 10);
    assert(digit_val(v[2]) == status as int % 10);
    assert(digit_val(v[0]) * 100 + digit_val(v[1]) * 10 + digit_val(v[2]) == status as int);
    assert(v.skip(3) =~= body);
}

/// Success and failure read-back law: a row encoded with a status below 400
/// reads back as success carrying exactly the body, and one at or above 400
/// reads back as the upstream error carrying exactly that status and body.
pub proof fn lemma_to_result_encode(status: u16, body: Seq<char>, r: Result<String, ApiError>)
    requires
        MIN_STATUS <= status <= MAX_STATUS,
        to_result_rel(encode_spec(status, body), r),
    ensures
        status < 400 ==> (r matches Ok(s) && s@ == body),
        status >= 400 ==> is_upstream_err(r, status, body),
{
    lemma_codec_round_trip(status, body);
}

} // verus!
