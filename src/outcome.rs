//! What a generated `fmt` does with the encoder's result.
use vstd::prelude::*;

verus! {

/// `serde_json::Error`, the encoder's error, carried through unopened.
#[verifier::external_type_specification]
#[verifier::external_body]
pub struct ExJsonError(serde_json::Error);

/// `std::fmt::Error`, a unit struct: the one failure a `fmt` can report.
#[verifier::external_type_specification]
pub struct ExFmtError(std::fmt::Error);

/// The text to write for an encoder's result: the encoded text itself, or,
/// when encoding failed, the bare formatting error, whatever the cause.
pub fn format_outcome(encoded: Result<String, serde_json::Error>) -> (r: Result<
    String,
    std::fmt::Error,
>)
    ensures
        encoded is Ok <==> r is Ok,
        encoded is Ok ==> r->Ok_0@ == encoded->Ok_0@,
{
    match encoded {
        Ok(s) => Ok(s),
        Err(_) => Err(std::fmt::Error),
    }
}

} // verus!
