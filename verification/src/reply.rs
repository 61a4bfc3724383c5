//! The gateway's replies.
use serde_json::Value;
use std::collections::HashMap;
use vstd::prelude::*;

use crate::text::{decimal, lemma_spelling_is_unique, spells_number};

verus! {

/// The JSON library's value.
#[verifier::external_type_specification]
#[verifier::external_body]
pub struct ExValue(serde_json::Value);

/// Response from the ingestion API when submitting data
#[derive(Debug, Clone)]
pub struct IngestionResponse {
    /// Ticket ID for this ingestion (to be treated as committed at once).
    pub ticket: String,
    /// Whatever else the response holds, by name.
    pub extra: HashMap<String, Value>,
}

/// The unsigned number that a JSON text holds in the member `inner` of the object in its member
/// `outer`, if the text is JSON and holds one there.
pub uninterp spec fn json_number_at(
    text: Seq<char>,
    outer: Seq<char>,
    inner: Seq<char>,
) -> Option<u64>;

/// A name of ASCII letters.
pub open spec fn is_letters(s: Seq<char>) -> bool {
    forall|i: int| 0 <= i < s.len() ==> ('A' <= #[trigger] s[i] <= 'Z' || 'a' <= s[i] <= 'z')
}

/// The shortest JSON text that holds the number `n` at the two members, `{"outer":{"inner":n}}`.
pub open spec fn number_body(outer: Seq<char>, inner: Seq<char>, n: u64) -> Seq<char> {
    "{\""@ + outer + "\":{\""@ + inner + "\":"@ + decimal(n as nat) + "}}"@
}

/// `serde_json::from_str` into a `Value`, then `Value::get` for each of the two member names, then
/// `Value::as_u64`: the number that stands there. It depends on the text and the two names alone.
/// What JSON is, and which of its numbers are unsigned 64-bit ones, stays with the parser, but for
/// two facts: an empty text holds nothing, and the shortest text that holds a number at two members
/// named by letters gives that number.
#[verifier::external_body]
fn json_number(text: &str, outer: &str, inner: &str) -> (r: Option<u64>)
    ensures
        r == json_number_at(text@, outer@, inner@),
        text@.len() == 0 ==> r is None,
        forall|n: u64|
            is_letters(outer@) && is_letters(inner@) && text@ == #[trigger] number_body(
                outer@,
                inner@,
                n,
            ) ==> r == Some(n),
{
    serde_json::from_str::<Value>(text).ok()?.get(outer)?.get(inner)?.as_u64()
}

/// A number as an error code, which has 32 bits.
pub open spec fn error_code(number: Option<u64>) -> Option<u32> {
    match number {
        Some(n) => if n <= u32::MAX {
            Some(n as u32)
        } else {
            None
        },
        None => None,
    }
}

/// The error code in a reply's body.
pub open spec fn body_error_code(body: Seq<char>) -> Option<u32> {
    error_code(json_number_at(body, "Error"@, "Code"@))
}

/// The code is the right one for the body, where the body is plain: empty, which has no code, or
/// the shortest text of its shape, which has the code it spells.
pub open spec fn is_plain_code(body: Seq<char>, code: Option<u32>) -> bool {
    &&& body.len() == 0 ==> code is None
    &&& forall|n: u64|
        body == #[trigger] number_body("Error"@, "Code"@, n) ==> code == error_code(Some(n))
}

/// Takes a number for an error code, if there is one and it fits.
pub fn narrow_error_code(number: Option<u64>) -> (r: Option<u32>)
    ensures
        r == error_code(number),
{
    match number {
        Some(n) => if n <= u32::MAX as u64 {
            Some(n as u32)
        } else {
            None
        },
        None => None,
    }
}

/// Try to extract the GIG internal error code from a JSON error body.
///
/// GIG error responses use the shape `{"Error":{"Code":<u32>, ...}}`. A body of that shape with
/// nothing else in it gives its code if the code fits, and an empty body none.
pub fn parse_gig_error_code(body: &str) -> (r: Option<u32>)
    ensures
        r == body_error_code(body@),
        is_plain_code(body@, r),
        forall|n: u64|
            body@ == #[trigger] number_body("Error"@, "Code"@, n) ==> r == error_code(Some(n)),
        body@.len() == 0 ==> r is None,
{
    proof {
        reveal_strlit("Error");
        reveal_strlit("Code");
    }
    narrow_error_code(json_number(body, "Error", "Code"))
}

/// A number of 32 bits is the error code as it is, and no other number is one.
pub proof fn law_codes_are_numbers_of_32_bits(number: Option<u64>, r: Option<u32>)
    requires
        call_ensures(narrow_error_code, (number,), r),
    ensures
        number is None ==> r is None,
        number matches Some(n) ==> (n <= 0xffff_ffff <==> r is Some),
        r matches Some(code) ==> number == Some(code as u64),
{
}

/// A body that says no more than its error code gives that code if it has 32 bits, and none if it
/// has more; an empty body gives none.
pub proof fn law_plain_bodies_give_their_code(
    body: &str,
    digits: Seq<char>,
    n: u64,
    r: Option<u32>,
)
    requires
        call_ensures(parse_gig_error_code, (body,), r),
        spells_number(digits, n as nat),
    ensures
        body@ == "{\"Error\":{\"Code\":"@ + digits + "}}"@ ==> (r is Some <==> n <= 0xffff_ffff) && (
        r is Some ==> r->0 == n),
        body@.len() == 0 ==> r is None,
{
    lemma_spelling_is_unique(digits, n as nat);
    reveal_strlit("Error");
    reveal_strlit("Code");
    reveal_strlit("{\"");
    reveal_strlit("\":{\"");
    reveal_strlit("\":");
    reveal_strlit("{\"Error\":{\"Code\":");
    assert("{\"Error\":{\"Code\":"@ =~= "{\""@ + "Error"@ + "\":{\""@ + "Code"@ + "\":"@);
    assert(is_plain_code(body@, r));
    assert("{\"Error\":{\"Code\":"@ + digits + "}}"@ =~= number_body("Error"@, "Code"@, n));
}

/// The code depends on the body alone.
pub proof fn law_code_depends_on_the_body_alone(
    one: &str,
    other: &str,
    r: Option<u32>,
    q: Option<u32>,
)
    requires
        call_ensures(parse_gig_error_code, (one,), r),
        call_ensures(parse_gig_error_code, (other,), q),
        one@ == other@,
    ensures
        r == q,
{
}

} // verus!
