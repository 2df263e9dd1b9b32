//! The calls into `serde_json` that the library makes.

use vstd::prelude::*;

verus! {

/// `serde_json::Error`, carried through unchanged by the library.
#[verifier::external_type_specification]
#[verifier::external_body]
pub struct ExJsonError(serde_json::Error);

/// `serde_json::Value`, an untyped JSON value handed through to `serde_json`.
#[verifier::external_type_specification]
#[verifier::external_body]
pub struct ExJsonValue(serde_json::Value);

/// Writes `value` as compact JSON text with `serde_json::to_string`. The
/// contract claims that the call succeeds (a `Value`'s object keys are
/// strings, its numbers are finite, and the text goes into a `Vec`, so no
/// step of the writing can fail) and that the text holds no NUL character
/// (`serde_json` writes a control character inside a string, NUL among them,
/// as a `\u` escape and emits no NUL anywhere else). Which text it writes is
/// left unsaid beyond that.
#[verifier::external_body]
pub(crate) fn json_text(value: &serde_json::Value) -> (r: Result<String, serde_json::Error>)
    ensures
        r is Ok,
        r matches Ok(text) ==> !text@.contains('\0'),
{
    serde_json::to_string(value)
}

/// `text` is what the library's call of `serde_json::to_string` hands back
/// for `value`: the JSON text `serde_json` writes for it.
pub closed spec fn written_json(value: serde_json::Value, text: String) -> bool {
    call_ensures(json_text, (&value,), Ok::<String, serde_json::Error>(text))
}

/// A text that the call of `json_text` on `value` returned is the one
/// `written_json` speaks of.
pub(crate) proof fn lemma_written_json(value: &serde_json::Value, text: String)
    requires
        call_ensures(json_text, (value,), Ok::<String, serde_json::Error>(text)),
    ensures
        written_json(*value, text),
{
}

/// What `serde_json` reads as the unsigned integer member `key` of the JSON
/// text `text`: `None` when `serde_json` refuses the text as a JSON value;
/// `Some(None)` when it accepts it but `key` names no member that is an
/// integer in `u64` range (also when the value is no object).
pub uninterp spec fn json_u64_member(text: Seq<char>, key: Seq<char>) -> Option<Option<u64>>;

/// Parses `text` with `serde_json::from_str` into a `serde_json::Value` and
/// reads `value[key].as_u64()` from it. The contract claims only that the
/// result is the one named by `json_u64_member` for these arguments, and that
/// the call fails exactly when that name says the text was refused.
#[verifier::external_body]
pub(crate) fn parse_u64_member(text: &str, key: &str) -> (r: Result<Option<u64>, serde_json::Error>)
    ensures
        r is Ok <==> json_u64_member(text@, key@) is Some,
        r matches Ok(member) ==> json_u64_member(text@, key@) == Some(member),
{
    serde_json::from_str::<serde_json::Value>(text).map(|v| v[key].as_u64())
}

} // verus!
