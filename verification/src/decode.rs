//! Percent-decoding of protocol arguments.
//!
//! Decoding itself is delegated to the `percent-encoding-rfc3986` crate; the
//! engine only fixes the fallback: a text that does not decode is used raw.

use vstd::prelude::*;

verus! {

/// What percent-decoding yields on `s`: the decoded characters when every
/// `%` starts a valid escape and the decoded bytes are well-formed UTF-8,
/// `None` otherwise.
pub uninterp spec fn percent_decoded(s: Seq<char>) -> Option<Seq<char>>;

/// The decoded form of `s`, or `s` itself when it does not decode.
pub open spec fn spec_decode_or_raw(s: Seq<char>) -> Seq<char> {
    match percent_decoded(s) {
        Some(d) => d,
        None => s,
    }
}

/// Relies on `percent_encoding_rfc3986::percent_decode_str` and
/// `PercentDecode::decode_utf8`: both are pure functions of the input text,
/// so their composite outcome is named `percent_decoded`.
#[verifier::external_body]
fn try_percent_decode(s: &str) -> (r: Option<String>)
    ensures
        match r {
            Some(t) => percent_decoded(s@) == Some(t@),
            None => percent_decoded(s@) is None,
        },
{
    match percent_encoding_rfc3986::percent_decode_str(s) {
        Ok(decoder) => match decoder.decode_utf8() {
            Ok(text) => Some(text.into_owned()),
            Err(_) => None,
        },
        Err(_) => None,
    }
}

/// Percent-decode `s`; on any failure, return `s` unchanged.
pub fn decode_or_raw(s: &str) -> (r: String)
    ensures
        r@ == spec_decode_or_raw(s@),
{
    match try_percent_decode(s) {
        Some(t) => t,
        None => String::from_str(s),
    }
}

} // verus!
