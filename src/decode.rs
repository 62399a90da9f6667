//! Decoding steps over JSON documents that fail with an error naming the
//! field path at which the document left the expected shape.
use vstd::prelude::*;
use crate::json::{field, json_get, json_text, json_view, parse_json, JsonNumber, JsonV};

verus! {

/// The kind of JSON value that a decoding step expected.
#[derive(Clone, Copy, Debug, PartialEq, Eq, Structural)]
pub enum JsonKind {
    Object,
    Array,
    String,
    UnsignedInteger,
}

/// Why a document could not be decoded.
#[derive(Debug, PartialEq)]
pub enum DecodeError {
    /// The text is not JSON at all.
    NotJson,
    /// The member at `path` is absent.
    MissingField { path: String },
    /// The value at `path` is of another kind than `expected`.
    WrongKind { path: String, expected: JsonKind },
    /// The string at `path` is none of the tokens that the field admits.
    UnknownValue { path: String, value: String },
}

/// The model of a [`DecodeError`].
pub enum DecodeFault {
    NotJson,
    MissingField(Seq<char>),
    WrongKind(Seq<char>, JsonKind),
    UnknownValue(Seq<char>, Seq<char>),
}

impl View for DecodeError {
    type V = DecodeFault;

    open spec fn view(&self) -> DecodeFault {
        match self {
            DecodeError::NotJson => DecodeFault::NotJson,
            DecodeError::MissingField { path } => DecodeFault::MissingField(path@),
            DecodeError::WrongKind { path, expected } => DecodeFault::WrongKind(path@, *expected),
            DecodeError::UnknownValue { path, value } => DecodeFault::UnknownValue(path@, value@),
        }
    }
}

/// The member `key` of `v`, or the error that names `path` as missing.
pub open spec fn field_at(v: JsonV, key: Seq<char>, path: Seq<char>) -> Result<JsonV, DecodeFault> {
    match field(v, key) {
        Some(x) => Ok(x),
        None => Err(DecodeFault::MissingField(path)),
    }
}

/// The string member `key` of `v`.
pub open spec fn str_field(v: JsonV, key: Seq<char>, path: Seq<char>) -> Result<Seq<char>, DecodeFault> {
    match field(v, key) {
        Some(JsonV::Str(s)) => Ok(s),
        Some(_) => Err(DecodeFault::WrongKind(path, JsonKind::String)),
        None => Err(DecodeFault::MissingField(path)),
    }
}

/// The array member `key` of `v`.
pub open spec fn array_field(v: JsonV, key: Seq<char>, path: Seq<char>) -> Result<Seq<JsonV>, DecodeFault> {
    match field(v, key) {
        Some(JsonV::Array(items)) => Ok(items),
        Some(_) => Err(DecodeFault::WrongKind(path, JsonKind::Array)),
        None => Err(DecodeFault::MissingField(path)),
    }
}

/// The non-negative integer member `key` of `v`, where it fits in `usize`.
pub open spec fn uint_field(v: JsonV, key: Seq<char>, path: Seq<char>) -> Result<nat, DecodeFault> {
    match field(v, key) {
        Some(JsonV::Number(JsonNumber::PosInt(n))) => if n <= usize::MAX {
            Ok(n)
        } else {
            Err(DecodeFault::WrongKind(path, JsonKind::UnsignedInteger))
        },
        Some(_) => Err(DecodeFault::WrongKind(path, JsonKind::UnsignedInteger)),
        None => Err(DecodeFault::MissingField(path)),
    }
}

/// The optional string member `key` of `v`: absent or null is `None`.
pub open spec fn opt_str_field(v: JsonV, key: Seq<char>, path: Seq<char>) -> Result<Option<Seq<char>>, DecodeFault> {
    match field(v, key) {
        Some(JsonV::Str(s)) => Ok(Some(s)),
        Some(JsonV::Null) => Ok(None),
        Some(_) => Err(DecodeFault::WrongKind(path, JsonKind::String)),
        None => Ok(None),
    }
}

/// The document that a text holds.
pub open spec fn document(text: Seq<char>) -> Result<JsonV, DecodeFault> {
    match json_text(text) {
        Some(doc) => Ok(doc),
        None => Err(DecodeFault::NotJson),
    }
}

/// Reads a text as a JSON document.
pub fn read_document(text: &str) -> (r: Result<serde_json::Value, DecodeError>)
    ensures
        match r {
            Ok(v) => document(text@) == Ok::<JsonV, DecodeFault>(json_view(v)),
            Err(e) => document(text@) == Err::<JsonV, DecodeFault>(e@),
        },
{
    match parse_json(text) {
        Some(v) => Ok(v),
        None => Err(DecodeError::NotJson),
    }
}

/// The member `key` of `v`.
pub fn get_field<'a>(v: &'a serde_json::Value, key: &str, path: &str) -> (r: Result<&'a serde_json::Value, DecodeError>)
    ensures
        match r {
            Ok(x) => field_at(json_view(*v), key@, path@) == Ok::<JsonV, DecodeFault>(json_view(*x)),
            Err(e) => field_at(json_view(*v), key@, path@) == Err::<JsonV, DecodeFault>(e@),
        },
{
    match json_get(v, key) {
        Some(x) => Ok(x),
        None => Err(DecodeError::MissingField { path: path.to_owned() }),
    }
}

/// The string member `key` of `v`.
pub fn get_str(v: &serde_json::Value, key: &str, path: &str) -> (r: Result<String, DecodeError>)
    ensures
        match r {
            Ok(s) => str_field(json_view(*v), key@, path@) == Ok::<Seq<char>, DecodeFault>(s@),
            Err(e) => str_field(json_view(*v), key@, path@) == Err::<Seq<char>, DecodeFault>(e@),
        },
{
    match json_get(v, key) {
        Some(x) => match x.as_str() {
            Some(s) => Ok(s.to_owned()),
            None => Err(DecodeError::WrongKind { path: path.to_owned(), expected: JsonKind::String }),
        },
        None => Err(DecodeError::MissingField { path: path.to_owned() }),
    }
}

/// The optional string member `key` of `v`: absent or null is `None`.
pub fn get_opt_str(v: &serde_json::Value, key: &str, path: &str) -> (r: Result<Option<String>, DecodeError>)
    ensures
        match r {
            Ok(Some(s)) => opt_str_field(json_view(*v), key@, path@) == Ok::<Option<Seq<char>>, DecodeFault>(Some(s@)),
            Ok(None) => opt_str_field(json_view(*v), key@, path@) == Ok::<Option<Seq<char>>, DecodeFault>(None),
            Err(e) => opt_str_field(json_view(*v), key@, path@) == Err::<Option<Seq<char>>, DecodeFault>(e@),
        },
{
    match json_get(v, key) {
        Some(x) => match x.as_str() {
            Some(s) => Ok(Some(s.to_owned())),
            None => if x.is_null() {
                Ok(None)
            } else {
                Err(DecodeError::WrongKind { path: path.to_owned(), expected: JsonKind::String })
            },
        },
        None => Ok(None),
    }
}

/// The array member `key` of `v`.
pub fn get_array<'a>(v: &'a serde_json::Value, key: &str, path: &str) -> (r: Result<&'a Vec<serde_json::Value>, DecodeError>)
    ensures
        match r {
            Ok(a) => array_field(json_view(*v), key@, path@)
                == Ok::<Seq<JsonV>, DecodeFault>(a@.map_values(|x: serde_json::Value| json_view(x))),
            Err(e) => array_field(json_view(*v), key@, path@) == Err::<Seq<JsonV>, DecodeFault>(e@),
        },
{
    match json_get(v, key) {
        Some(x) => match x.as_array() {
            Some(a) => Ok(a),
            None => Err(DecodeError::WrongKind { path: path.to_owned(), expected: JsonKind::Array }),
        },
        None => Err(DecodeError::MissingField { path: path.to_owned() }),
    }
}

/// The non-negative integer member `key` of `v`.
pub fn get_uint(v: &serde_json::Value, key: &str, path: &str) -> (r: Result<usize, DecodeError>)
    ensures
        match r {
            Ok(n) => uint_field(json_view(*v), key@, path@) == Ok::<nat, DecodeFault>(n as nat),
            Err(e) => uint_field(json_view(*v), key@, path@) == Err::<nat, DecodeFault>(e@),
        },
{
    match json_get(v, key) {
        Some(x) => match x.as_u64() {
            Some(n) => if n <= usize::MAX as u64 {
                Ok(n as usize)
            } else {
                Err(DecodeError::WrongKind { path: path.to_owned(), expected: JsonKind::UnsignedInteger })
            },
            None => Err(DecodeError::WrongKind { path: path.to_owned(), expected: JsonKind::UnsignedInteger }),
        },
        None => Err(DecodeError::MissingField { path: path.to_owned() }),
    }
}

} // verus!

verus! {

/// `r` with `xs` put in front of the decoded items.
pub open spec fn prepend<T>(xs: Seq<T>, r: Result<Seq<T>, DecodeFault>) -> Result<Seq<T>, DecodeFault> {
    match r {
        Ok(ys) => Ok(xs + ys),
        Err(e) => Err(e),
    }
}

pub proof fn lemma_prepend_empty<T>(r: Result<Seq<T>, DecodeFault>)
    ensures
        prepend(Seq::<T>::empty(), r) == r,
{
    if let Ok(ys) = r {
        assert(Seq::<T>::empty() + ys =~= ys);
    }
}

pub proof fn lemma_prepend_step<T>(xs: Seq<T>, x: T, r: Result<Seq<T>, DecodeFault>)
    ensures
        prepend(xs, prepend(seq![x], r)) == prepend(xs.push(x), r),
{
    if let Ok(ys) = r {
        assert(xs + (seq![x] + ys) =~= xs.push(x) + ys);
    }
}

pub proof fn lemma_prepend_done<T>(xs: Seq<T>)
    ensures
        prepend(xs, Ok(Seq::<T>::empty())) == Ok::<Seq<T>, DecodeFault>(xs),
{
    assert(xs + Seq::<T>::empty() =~= xs);
}

/// The list member `key` of `v`: an array, or null for an empty list.
pub open spec fn list_field(v: JsonV, key: Seq<char>, path: Seq<char>) -> Result<Seq<JsonV>, DecodeFault> {
    match field(v, key) {
        Some(JsonV::Array(items)) => Ok(items),
        Some(JsonV::Null) => Ok(Seq::empty()),
        Some(_) => Err(DecodeFault::WrongKind(path, JsonKind::Array)),
        None => Err(DecodeFault::MissingField(path)),
    }
}

/// The list member `key` of `v`; `None` stands for a null, that is an empty list.
pub fn get_list<'a>(v: &'a serde_json::Value, key: &str, path: &str) -> (r: Result<Option<&'a Vec<serde_json::Value>>, DecodeError>)
    ensures
        match r {
            Ok(Some(a)) => list_field(json_view(*v), key@, path@)
                == Ok::<Seq<JsonV>, DecodeFault>(a@.map_values(|x: serde_json::Value| json_view(x))),
            Ok(None) => list_field(json_view(*v), key@, path@) == Ok::<Seq<JsonV>, DecodeFault>(Seq::empty()),
            Err(e) => list_field(json_view(*v), key@, path@) == Err::<Seq<JsonV>, DecodeFault>(e@),
        },
{
    match json_get(v, key) {
        Some(x) => match x.as_array() {
            Some(a) => Ok(Some(a)),
            None => if x.is_null() {
                Ok(None)
            } else {
                Err(DecodeError::WrongKind { path: path.to_owned(), expected: JsonKind::Array })
            },
        },
        None => Err(DecodeError::MissingField { path: path.to_owned() }),
    }
}

/// The texts of a list whose items must be strings.
pub open spec fn strings_of(items: Seq<JsonV>, path: Seq<char>) -> Result<Seq<Seq<char>>, DecodeFault>
    decreases items.len(),
{
    if items.len() == 0 {
        Ok(Seq::empty())
    } else {
        match items[0] {
            JsonV::Str(s) => prepend(seq![s], strings_of(items.drop_first(), path)),
            _ => Err(DecodeFault::WrongKind(path, JsonKind::String)),
        }
    }
}

/// Decodes a list whose items must be strings.
pub fn decode_strings(items: &Vec<serde_json::Value>, path: &str) -> (r: Result<Vec<String>, DecodeError>)
    ensures
        match r {
            Ok(ss) => strings_of(items@.map_values(|x: serde_json::Value| json_view(x)), path@)
                == Ok::<Seq<Seq<char>>, DecodeFault>(ss@.map_values(|s: String| s@)),
            Err(e) => strings_of(items@.map_values(|x: serde_json::Value| json_view(x)), path@)
                == Err::<Seq<Seq<char>>, DecodeFault>(e@),
        },
{
    let ghost js = items@.map_values(|x: serde_json::Value| json_view(x));
    let mut out: Vec<String> = Vec::new();
    let mut i: usize = 0;
    proof {
        assert(js.skip(0) =~= js);
        lemma_prepend_empty(strings_of(js, path@));
    }
    while i < items.len()
        invariant
            js == items@.map_values(|x: serde_json::Value| json_view(x)),
            i <= items@.len(),
            strings_of(js, path@) == prepend(out@.map_values(|s: String| s@), strings_of(js.skip(i as int), path@)),
        decreases items.len() - i,
    {
        let ghost before = out@.map_values(|s: String| s@);
        proof {
            assert(js.skip(i as int).drop_first() =~= js.skip(i + 1));
            assert(js.skip(i as int)[0] == js[i as int]);
        }
        match items[i].as_str() {
            Some(s) => {
                let t: String = s.to_owned();
                proof {
                    lemma_prepend_step(before, t@, strings_of(js.skip(i + 1), path@));
                }
                out.push(t);
                proof {
                    assert(out@.map_values(|s: String| s@) =~= before.push(t@));
                }
            },
            None => {
                return Err(DecodeError::WrongKind { path: path.to_owned(), expected: JsonKind::String });
            },
        }
        i = i + 1;
    }
    proof {
        assert(js.skip(i as int) =~= Seq::<JsonV>::empty());
        lemma_prepend_done(out@.map_values(|s: String| s@));
    }
    Ok(out)
}

} // verus!
