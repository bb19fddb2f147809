//! JSON scalars: the decimal form of an unsigned number and the escaped form
//! of a string, the latter produced by `serde_json`.

use vstd::prelude::*;

verus! {

/// The error type of `serde_json`, carried through as an opaque value.
#[verifier::external_type_specification]
#[verifier::external_body]
pub struct ExJsonError(serde_json::Error);

/// What `serde_json::to_vec` gives for a string: `Some` of the bytes of the
/// JSON string literal on success, `None` when it reports an error.
pub uninterp spec fn json_text(s: Seq<char>) -> Option<Seq<u8>>;

/// Calls `serde_json::to_vec` on a string slice. The outcome depends on the
/// characters of the string alone, so it is equated with `json_text`; nothing
/// is claimed about which strings succeed or what the bytes are.
#[verifier::external_body]
pub(crate) fn encode_text(s: &str) -> (r: Result<Vec<u8>, serde_json::Error>)
    ensures
        match r {
            Ok(bytes) => json_text(s@) == Some(bytes@),
            Err(_) => json_text(s@) is None,
        },
{
    serde_json::to_vec(s)
}

/// The decimal digits of `n` in ASCII, most significant first, without
/// leading zeros: the JSON form of an unsigned number.
pub open spec fn decimal(n: nat) -> Seq<u8>
    decreases n,
{
    if n < 10 {
        seq![(48 + n) as u8]
    } else {
        decimal(n / 10).push((48 + n % 10) as u8)
    }
}

/// Renders `n` as JSON.
pub fn encode_number(n: u32) -> (digits: Vec<u8>)
    ensures
        digits@ == decimal(n as nat),
    decreases n,
{
    if n < 10 {
        let mut digits: Vec<u8> = Vec::new();
        digits.push(48 + n as u8);
        digits
    } else {
        let mut digits = encode_number(n / 10);
        digits.push(48 + (n % 10) as u8);
        digits
    }
}

} // verus!
