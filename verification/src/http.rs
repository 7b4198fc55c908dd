//! What the crate takes from the HTTP library underneath: the standard
//! reason phrases of status codes, and the test that a header value must
//! pass. Nothing in this file is proved; the rest of the crate relies on
//! what is stated here.

use vstd::prelude::*;
use crate::request::text_of;

verus! {

/// The standard reason phrase of a status code, as `canonical_reason` of
/// `reqwest::StatusCode` gives it; `None` for a code that has none.
pub uninterp spec fn canonical_reason(status: u16) -> Option<Seq<char>>;

/// Whether a number is one that `reqwest::StatusCode` can hold.
pub open spec fn is_status_code(status: u16) -> bool {
    100 <= status <= 999
}

/// Calls `reqwest::StatusCode::from_u16` and then `canonical_reason` on
/// the code.
/// The first accepts exactly the numbers from 100 to 999, which is all that
/// this function is given; the second looks the number up in a fixed table
/// and depends on nothing else. The claim is only that the phrase handed
/// back is that table's entry, under the name `canonical_reason`.
#[verifier::external_body]
pub(crate) fn reason_phrase(status: u16) -> (phrase: Option<String>)
    requires
        is_status_code(status),
    ensures
        text_of(phrase) == canonical_reason(status),
{
    match reqwest::StatusCode::from_u16(status) {
        Ok(code) => code.canonical_reason().map(String::from),
        Err(_) => None,
    }
}

/// Whether a character may stand in a header value: a tab, or anything from
/// the space upwards but the delete character.
pub open spec fn is_header_char(c: char) -> bool {
    c == '\t' || (c as u32 >= 32 && c as u32 != 127)
}

/// Whether a text may stand as a header value: each of its characters may.
pub open spec fn is_header_text(text: Seq<char>) -> bool {
    forall|i: int| 0 <= i < text.len() ==> is_header_char(#[trigger] text[i])
}

/// Calls `reqwest::header::HeaderValue::from_str` and tells whether it
/// accepted the text.
/// That function refuses a text exactly when one of its bytes is below 32
/// and no tab, or is 127. A character below 128 is one byte of its own
/// number, and every byte of a longer character is 128 or more, so the test
/// on bytes is the test on characters that the contract states.
#[verifier::external_body]
pub(crate) fn header_value_accepts(value: &str) -> (accepted: bool)
    ensures
        accepted == is_header_text(value@),
{
    reqwest::header::HeaderValue::from_str(value).is_ok()
}

} // verus!
