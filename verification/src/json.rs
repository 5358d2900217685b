//! JSON values as the `serde_json` crate holds them.
//!
//! A JSON value stays opaque to the verifier; what the library reads out of
//! one goes through the functions below, each of which calls `serde_json`
//! and whose result is named by a specification function.

use vstd::prelude::*;

verus! {

/// `serde_json::Value` is carried through the library without being
/// inspected directly.
#[verifier::external_type_specification]
#[verifier::external_body]
pub struct ExJsonValue(serde_json::Value);

/// The value that `serde_json::from_slice::<Value>` parses out of `bytes`,
/// or `None` where it reports an error.
pub uninterp spec fn json_parse(bytes: Seq<u8>) -> Option<serde_json::Value>;

/// The member that `Value::get` finds under `key` in `value` (`None` where
/// `value` is not an object or holds no such key).
pub uninterp spec fn json_member(value: serde_json::Value, key: Seq<char>) -> Option<serde_json::Value>;

/// The text that `Value::as_str` reads from `value` (`None` where `value`
/// is not a JSON string).
pub uninterp spec fn json_text(value: serde_json::Value) -> Option<Seq<char>>;

/// Whether `Value::is_null` holds of `value`.
pub uninterp spec fn json_is_null(value: serde_json::Value) -> bool;

/// The compact encoding that `serde_json::to_vec` writes for `value`.
pub uninterp spec fn json_bytes(value: serde_json::Value) -> Seq<u8>;

/// The quoted, escaped JSON string literal that `serde_json::to_string`
/// writes for the text `s`.
pub uninterp spec fn json_quote(s: Seq<char>) -> Seq<char>;

/// The text member `key` of a JSON value: `Some` where the value is an
/// object whose member `key` is a JSON string.
pub open spec fn string_member(value: serde_json::Value, key: Seq<char>) -> Option<Seq<char>> {
    match json_member(value, key) {
        Some(m) => json_text(m),
        None => None,
    }
}

/// One member of a JSON object whose value is a string, `"key":"value"`,
/// each side written as `serde_json` writes a string.
pub open spec fn member_text(member: (Seq<char>, Seq<char>)) -> Seq<char> {
    json_quote(member.0) + ":"@ + json_quote(member.1)
}

/// The members of an object, in order, separated by commas.
pub open spec fn members_text(members: Seq<(Seq<char>, Seq<char>)>) -> Seq<char>
    decreases members.len(),
{
    if members.len() == 0 {
        Seq::empty()
    } else if members.len() == 1 {
        member_text(members[0])
    } else {
        members_text(members.drop_last()) + ","@ + member_text(members.last())
    }
}

/// The compact JSON text of an object whose members are strings, in the
/// given order.
pub open spec fn object_text(members: Seq<(Seq<char>, Seq<char>)>) -> Seq<char> {
    "{"@ + members_text(members) + "}"@
}

/// No key occurs twice among the members.
pub open spec fn distinct_keys(members: Seq<(Seq<char>, Seq<char>)>) -> bool {
    forall|i: int, j: int| 0 <= i < j < members.len() ==> members[i].0 != members[j].0
}

/// The UTF-8 bytes of the JSON text `null`.
pub open spec fn null_text() -> Seq<u8> {
    seq![0x6eu8, 0x75u8, 0x6cu8, 0x6cu8]
}

/// Calls `serde_json::from_slice::<serde_json::Value>`; claims that the
/// outcome is the one named by `json_parse` for these bytes, that the text
/// `null` parses, and that the text of an object with string members and
/// distinct keys parses to an object whose members read back as written.
#[verifier::external_body]
pub(crate) fn parse(bytes: &[u8]) -> (r: Option<serde_json::Value>)
    ensures
        r == json_parse(bytes@),
        bytes@ == null_text() ==> r is Some,
        forall|members: Seq<(Seq<char>, Seq<char>)>|
            #![trigger object_text(members)]
            distinct_keys(members) && bytes@ == vstd::utf8::encode_utf8(object_text(members)) ==> (r matches Some(v)
                && forall|i: int| 0 <= i < members.len() ==> #[trigger] string_member(v, members[i].0) == Some(members[i].1)),
{
    serde_json::from_slice::<serde_json::Value>(bytes).ok()
}

/// Calls `serde_json::Value::get` with a string key and clones the member
/// found; claims it is the member named by `json_member`.
#[verifier::external_body]
pub(crate) fn member(value: &serde_json::Value, key: &str) -> (r: Option<serde_json::Value>)
    ensures
        r == json_member(*value, key@),
{
    value.get(key).cloned()
}

/// Calls `serde_json::Value::as_str`; claims the text returned is the one
/// named by `json_text`.
#[verifier::external_body]
pub(crate) fn text(value: &serde_json::Value) -> (r: Option<String>)
    ensures
        r is Some <==> json_text(*value) is Some,
        r matches Some(s) ==> s@ == json_text(*value)->0,
{
    value.as_str().map(|s| s.to_string())
}

/// Calls `serde_json::Value::is_null`; claims the answer named by
/// `json_is_null`.
#[verifier::external_body]
pub(crate) fn is_null(value: &serde_json::Value) -> (r: bool)
    ensures
        r == json_is_null(*value),
{
    value.is_null()
}

/// Calls `serde_json::to_vec` on a value (which cannot fail for a
/// `Value`); claims the bytes are the ones named by `json_bytes` and that
/// they are not empty. That they parse back is not claimed: the parser
/// refuses values nested deeper than its recursion limit, which the writer
/// does not have.
#[verifier::external_body]
pub(crate) fn to_bytes(value: &serde_json::Value) -> (r: Vec<u8>)
    ensures
        r@ == json_bytes(*value),
        r@.len() > 0,
{
    serde_json::to_vec(value).unwrap_or_default()
}

/// Calls `serde_json::to_string` on a string slice (which cannot fail);
/// claims the literal is the one named by `json_quote`.
#[verifier::external_body]
pub(crate) fn quote(s: &str) -> (r: String)
    ensures
        r@ == json_quote(s@),
{
    serde_json::to_string(s).unwrap_or_default()
}

/// `Clone` on a JSON value: claims the copy equals the original (the derived
/// clone copies the whole tree).
pub assume_specification[ <serde_json::Value as Clone>::clone ](value: &serde_json::Value) -> (r: serde_json::Value)
    ensures
        r == *value,
;

/// Builds `serde_json::Value::Null`; claims it is the value that the text
/// `null` parses to, and that `Value::is_null` holds of it.
#[verifier::external_body]
pub(crate) fn null() -> (r: serde_json::Value)
    ensures
        Some(r) == json_parse(null_text()),
        json_is_null(r),
{
    serde_json::Value::Null
}

/// The JSON string value `Value::String` holds for a text.
pub uninterp spec fn json_string(text: Seq<char>) -> serde_json::Value;

/// Builds `serde_json::Value::String`; claims it is the value named by
/// `json_string`, whose text `Value::as_str` reads back.
#[verifier::external_body]
pub(crate) fn string_value(text: String) -> (r: serde_json::Value)
    ensures
        r == json_string(text@),
        json_text(r) == Some(text@),
{
    serde_json::Value::String(text)
}

/// The JSON object that `Value::from_iter` collects from key and value
/// pairs, in the given order.
pub uninterp spec fn json_object_of(members: Seq<(Seq<char>, serde_json::Value)>) -> serde_json::Value;

/// The keys and values of a list of members, keys taken as text.
pub open spec fn member_views(members: Seq<(String, serde_json::Value)>) -> Seq<(Seq<char>, serde_json::Value)> {
    members.map_values(|m: (String, serde_json::Value)| (m.0@, m.1))
}

/// Calls `serde_json::Value::from_iter` on key and value pairs, which
/// collects them into an object; claims the object is the one named by
/// `json_object_of` for the pairs, and that with distinct keys each key's
/// member is its value.
#[verifier::external_body]
pub(crate) fn object_of(members: Vec<(String, serde_json::Value)>) -> (r: serde_json::Value)
    ensures
        r == json_object_of(member_views(members@)),
        (forall|i: int, j: int| 0 <= i < j < members@.len() ==> members@[i].0@ != members@[j].0@) ==> forall|i: int|
            0 <= i < members@.len() ==> #[trigger] json_member(r, members@[i].0@) == Some(members@[i].1),
{
    <serde_json::Value as std::iter::FromIterator<(String, serde_json::Value)>>::from_iter(members)
}

} // verus!
