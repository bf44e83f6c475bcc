use vstd::prelude::*;

verus! {

/// The string that serde_json finds at a JSON pointer in a text: `None` when
/// the text is not JSON, nothing is at the pointer, or what is there is not a
/// string.
pub uninterp spec fn json_str_at(text: Seq<char>, pointer: Seq<char>) -> Option<Seq<char>>;

/// The unsigned integer that serde_json finds at a JSON pointer in a text:
/// `None` when the text is not JSON, nothing is at the pointer, or what is
/// there is not a number that fits in a `u64`.
pub uninterp spec fn json_u64_at(text: Seq<char>, pointer: Seq<char>) -> Option<u64>;

/// The boolean that serde_json finds at a JSON pointer in a text: `None`
/// when the text is not JSON, nothing is at the pointer, or what is there is
/// not a boolean.
pub uninterp spec fn json_bool_at(text: Seq<char>, pointer: Seq<char>) -> Option<bool>;

/// Whether serde_json finds any value (`null` included) at a JSON pointer in
/// a text.
pub uninterp spec fn json_has(text: Seq<char>, pointer: Seq<char>) -> bool;

/// Relies on `serde_json::from_str` into a `Value`, `Value::pointer` and
/// `Value::as_str`: the string at `pointer`, read from `text` alone.
#[verifier::external_body]
pub(crate) fn str_at(text: &str, pointer: &str) -> (r: Option<String>)
    ensures
        match r {
            Some(s) => json_str_at(text@, pointer@) == Some(s@),
            None => json_str_at(text@, pointer@) is None,
        },
{
    let value: serde_json::Value = serde_json::from_str(text).ok()?;
    let found = value.pointer(pointer)?.as_str()?;
    Some(found.to_string())
}

/// Relies on `serde_json::from_str` into a `Value`, `Value::pointer` and
/// `Value::as_u64`: the integer at `pointer`, read from `text` alone.
#[verifier::external_body]
pub(crate) fn u64_at(text: &str, pointer: &str) -> (r: Option<u64>)
    ensures
        r == json_u64_at(text@, pointer@),
{
    let value: serde_json::Value = serde_json::from_str(text).ok()?;
    value.pointer(pointer)?.as_u64()
}

/// Relies on `serde_json::from_str` into a `Value`, `Value::pointer` and
/// `Value::as_bool`: the boolean at `pointer`, read from `text` alone.
#[verifier::external_body]
pub(crate) fn bool_at(text: &str, pointer: &str) -> (r: Option<bool>)
    ensures
        r == json_bool_at(text@, pointer@),
{
    let value: serde_json::Value = serde_json::from_str(text).ok()?;
    value.pointer(pointer)?.as_bool()
}

/// Relies on `serde_json::from_str` into a `Value` and `Value::pointer`:
/// whether anything stands at `pointer`, read from `text` alone.
#[verifier::external_body]
pub(crate) fn has_at(text: &str, pointer: &str) -> (r: bool)
    ensures
        r == json_has(text@, pointer@),
{
    match serde_json::from_str::<serde_json::Value>(text) {
        Ok(value) => value.pointer(pointer).is_some(),
        Err(_) => false,
    }
}

} // verus!
