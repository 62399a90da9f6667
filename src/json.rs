//! A mathematical model of JSON documents and the calls into serde_json that
//! the decoders make, stated over that model.
use vstd::prelude::*;

verus! {

/// A JSON number as serde_json holds it.
pub enum JsonNumber {
    /// A non-negative integer (serde_json keeps it as a `u64`).
    PosInt(nat),
    /// A negative integer (kept as an `i64`).
    NegInt(int),
    /// Any other number, by its decimal text.
    Float(Seq<char>),
}

/// A JSON value. An object lists its members in the order in which
/// serde_json's map yields them.
pub enum JsonV {
    Null,
    Bool(bool),
    Number(JsonNumber),
    Str(Seq<char>),
    Array(Seq<JsonV>),
    Object(Seq<(Seq<char>, JsonV)>),
}

/// What a `serde_json::Value` holds.
pub uninterp spec fn json_view(v: serde_json::Value) -> JsonV;

/// What a `serde_json::Map` holds, member by member, in iteration order.
pub uninterp spec fn json_members(m: serde_json::Map<String, serde_json::Value>) -> Seq<(Seq<char>, JsonV)>;

/// The document that serde_json reads from a text, or `None` where the text
/// is not JSON.
pub uninterp spec fn json_text(text: Seq<char>) -> Option<JsonV>;

#[verifier::external_type_specification]
#[verifier::external_body]
pub struct ExJsonValue(serde_json::Value);

#[verifier::external_type_specification]
#[verifier::external_body]
#[verifier::reject_recursive_types(K)]
#[verifier::reject_recursive_types(V)]
pub struct ExJsonMap<K, V>(serde_json::Map<K, V>);

/// The value of the first member named `key`, where `v` is an object.
pub open spec fn member(members: Seq<(Seq<char>, JsonV)>, key: Seq<char>) -> Option<JsonV>
    decreases members.len(),
{
    if members.len() == 0 {
        None
    } else if members[0].0 == key {
        Some(members[0].1)
    } else {
        member(members.drop_first(), key)
    }
}

/// The field `key` of `v`: `None` where `v` is no object or has no such member.
pub open spec fn field(v: JsonV, key: Seq<char>) -> Option<JsonV> {
    match v {
        JsonV::Object(members) => member(members, key),
        _ => None,
    }
}

/// Relies on serde_json::Value::as_str: the text of a JSON string, `None`
/// for any other kind of value.
pub assume_specification[ serde_json::Value::as_str ](v: &serde_json::Value) -> (r: Option<&str>)
    ensures
        r is Some <==> json_view(*v) is Str,
        r matches Some(s) ==> json_view(*v) == JsonV::Str(s@),
;

/// Relies on serde_json::Value::as_array: the items of a JSON array, `None`
/// for any other kind of value.
pub assume_specification[ serde_json::Value::as_array ](v: &serde_json::Value) -> (r: Option<&Vec<serde_json::Value>>)
    ensures
        r is Some <==> json_view(*v) is Array,
        r matches Some(a) ==> json_view(*v) == JsonV::Array(a@.map_values(|x: serde_json::Value| json_view(x))),
;

/// Relies on serde_json::Value::as_object: the map of a JSON object, `None`
/// for any other kind of value.
pub assume_specification[ serde_json::Value::as_object ](v: &serde_json::Value) -> (r: Option<&serde_json::Map<String, serde_json::Value>>)
    ensures
        r is Some <==> json_view(*v) is Object,
        r matches Some(m) ==> json_view(*v) == JsonV::Object(json_members(*m)),
;

/// Relies on serde_json::Value::as_u64: the value of a non-negative integer,
/// `None` for any other value.
pub assume_specification[ serde_json::Value::as_u64 ](v: &serde_json::Value) -> (r: Option<u64>)
    ensures
        r is Some <==> (json_view(*v) is Number && json_view(*v)->Number_0 is PosInt),
        r matches Some(n) ==> json_view(*v) == JsonV::Number(JsonNumber::PosInt(n as nat)),
;

/// Relies on serde_json::Value::is_null: whether the value is null.
pub assume_specification[ serde_json::Value::is_null ](v: &serde_json::Value) -> (r: bool)
    ensures
        r == (json_view(*v) is Null),
;

/// Relies on serde_json::Value::get with a `&str` key: the member of that
/// name where the value is an object, `None` otherwise.
#[verifier::external_body]
pub fn json_get<'a>(v: &'a serde_json::Value, key: &str) -> (r: Option<&'a serde_json::Value>)
    ensures
        r is Some <==> field(json_view(*v), key@) is Some,
        r matches Some(x) ==> field(json_view(*v), key@) == Some(json_view(*x)),
{
    v.get(key)
}

/// Relies on serde_json::Map::iter: the members of an object, in the map's
/// order; a map holds each key once.
#[verifier::external_body]
pub fn json_map_members<'a>(m: &'a serde_json::Map<String, serde_json::Value>) -> (r: Vec<(String, &'a serde_json::Value)>)
    ensures
        r@.len() == json_members(*m).len(),
        forall|i: int| 0 <= i < r@.len() ==> (#[trigger] r@[i]).0@ == json_members(*m)[i].0
            && json_view(*r@[i].1) == json_members(*m)[i].1,
        forall|i: int, j: int| 0 <= i < j < r@.len() ==> (#[trigger] r@[i]).0@ != (#[trigger] r@[j]).0@,
{
    m.iter().map(|(k, x)| (k.clone(), x)).collect()
}

/// The document that serde_yaml reads from a text, in the JSON model, or
/// `None` where the text is no YAML document that a JSON value can hold.
pub uninterp spec fn yaml_text(text: Seq<char>) -> Option<JsonV>;

/// Relies on serde_yaml::from_str into a `serde_json::Value`: the document
/// that the YAML text holds, `None` where it cannot be read.
#[verifier::external_body]
pub fn parse_yaml(text: &str) -> (r: Option<serde_json::Value>)
    ensures
        r is Some <==> yaml_text(text@) is Some,
        r matches Some(v) ==> yaml_text(text@) == Some(json_view(v)),
{
    serde_yaml::from_str::<serde_json::Value>(text).ok()
}

/// What serde_yaml makes of a document: its YAML text, or `None` where it
/// reports an error.
pub uninterp spec fn yaml_out(v: JsonV) -> Option<Seq<char>>;

/// Relies on serde_yaml::to_string: its outcome depends on the document
/// alone.
#[verifier::external_body]
pub fn emit_yaml(v: &serde_json::Value) -> (r: Option<String>)
    ensures
        match r {
            Some(t) => yaml_out(json_view(*v)) == Some(t@),
            None => yaml_out(json_view(*v)) is None,
        },
{
    serde_yaml::to_string(v).ok()
}

/// Relies on the variant serde_json::Value::String.
#[verifier::external_body]
pub fn json_string(s: String) -> (r: serde_json::Value)
    ensures
        json_view(r) == JsonV::Str(s@),
{
    serde_json::Value::String(s)
}

/// Relies on the variant serde_json::Value::Null.
#[verifier::external_body]
pub fn json_null() -> (r: serde_json::Value)
    ensures
        json_view(r) == JsonV::Null,
{
    serde_json::Value::Null
}

/// Relies on the variant serde_json::Value::Array.
#[verifier::external_body]
pub fn json_array(items: Vec<serde_json::Value>) -> (r: serde_json::Value)
    ensures
        json_view(r) == JsonV::Array(items@.map_values(|x: serde_json::Value| json_view(x))),
{
    serde_json::Value::Array(items)
}

/// Whether text `a` comes strictly before text `b`, character by character.
/// For UTF-8 this is the byte order by which `String` compares.
pub open spec fn text_lt(a: Seq<char>, b: Seq<char>) -> bool
    decreases a.len(),
{
    if a.len() == 0 {
        b.len() > 0
    } else if b.len() == 0 {
        false
    } else if a[0] == b[0] {
        text_lt(a.drop_first(), b.drop_first())
    } else {
        (a[0] as u32) < (b[0] as u32)
    }
}

/// Relies on the variant serde_json::Value::Object with a serde_json::Map
/// collected from the members: the map keeps its keys in ascending order, so
/// members given in strictly ascending order keep their order.
#[verifier::external_body]
pub fn json_object(members: Vec<(String, serde_json::Value)>) -> (r: serde_json::Value)
    requires
        forall|i: int, j: int| 0 <= i < j < members@.len() ==> text_lt(#[trigger] members@[i].0@, #[trigger] members@[j].0@),
    ensures
        json_view(r) == JsonV::Object(members@.map_values(|m: (String, serde_json::Value)| (m.0@, json_view(m.1)))),
{
    serde_json::Value::Object(members.into_iter().collect())
}

/// Relies on serde_json::from_str into a `Value`: the document that the text
/// holds, `None` where it is not JSON.
#[verifier::external_body]
pub fn parse_json(text: &str) -> (r: Option<serde_json::Value>)
    ensures
        r is Some <==> json_text(text@) is Some,
        r matches Some(v) ==> json_text(text@) == Some(json_view(v)),
{
    serde_json::from_str::<serde_json::Value>(text).ok()
}

} // verus!
