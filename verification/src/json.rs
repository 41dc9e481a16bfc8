//! The JSON values that the conversion service returns. They stay `serde_json` values: the
//! library looks into them only through the functions of this module, whose contracts are
//! taken on trust from `serde_json`.

use vstd::prelude::*;

verus! {

/// `serde_json::Value`, carried through the library without looking inside it.
#[verifier::external_type_specification]
#[verifier::external_body]
pub struct ExValue(serde_json::Value);

/// The member that `value` holds under `key`: one exists where `value` is a JSON object with
/// that key, and nowhere else.
pub uninterp spec fn json_member(value: serde_json::Value, key: Seq<char>) -> Option<
    serde_json::Value,
>;

/// The text of `value` where it is a JSON string, `None` for every other kind of value.
pub uninterp spec fn json_text(value: serde_json::Value) -> Option<Seq<char>>;

/// The elements of `value` where it is a JSON array, `None` for every other kind of value.
pub uninterp spec fn json_items(value: serde_json::Value) -> Option<Seq<serde_json::Value>>;

/// Whether `value` is the JSON `null`.
pub uninterp spec fn json_is_null(value: serde_json::Value) -> bool;

/// `value` written out as indented JSON, or the text of the error that writing it ended in.
pub uninterp spec fn json_pretty(value: serde_json::Value) -> Result<Seq<char>, Seq<char>>;

/// `serde_json::Value::get` with a string key. The contract only names the result: the member
/// found is `json_member` of the value and the key.
#[verifier::external_body]
pub(crate) fn member<'a>(value: &'a serde_json::Value, key: &str) -> (found: Option<
    &'a serde_json::Value,
>)
    ensures
        found is Some == json_member(*value, key@) is Some,
        found matches Some(inner) ==> json_member(*value, key@) == Some(*inner),
{
    value.get(key)
}

/// `serde_json::Value::as_str`. The contract only names the result: the text handed out is
/// `json_text` of the value.
#[verifier::external_body]
pub(crate) fn text_of<'a>(value: &'a serde_json::Value) -> (text: Option<&'a str>)
    ensures
        text is Some == json_text(*value) is Some,
        text matches Some(t) ==> json_text(*value) == Some(t@),
{
    value.as_str()
}

/// `serde_json::Value::as_array`. The contract only names the result: the vector handed out
/// holds `json_items` of the value.
#[verifier::external_body]
pub(crate) fn items_of<'a>(value: &'a serde_json::Value) -> (items: Option<
    &'a Vec<serde_json::Value>,
>)
    ensures
        items is Some == json_items(*value) is Some,
        items matches Some(list) ==> json_items(*value) == Some(list@),
{
    value.as_array()
}

/// `serde_json::Value::is_null`. The contract only names the result.
#[verifier::external_body]
pub(crate) fn is_null(value: &serde_json::Value) -> (null: bool)
    ensures
        null == json_is_null(*value),
{
    value.is_null()
}

/// `serde_json::to_string_pretty` on a value, the error turned into its text. The contract
/// only names the result: it is `json_pretty` of the value.
#[verifier::external_body]
pub(crate) fn pretty(value: &serde_json::Value) -> (written: Result<String, String>)
    ensures
        written is Ok == json_pretty(*value) is Ok,
        written matches Ok(text) ==> json_pretty(*value)->Ok_0 == text@,
        written matches Err(reason) ==> json_pretty(*value)->Err_0 == reason@,
{
    serde_json::to_string_pretty(value).map_err(|e| e.to_string())
}

} // verus!
