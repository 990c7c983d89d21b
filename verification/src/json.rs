//! JSON documents that the SDK sends to CosmWasm contracts, and their
//! encoding to bytes through `serde_json`.
use vstd::prelude::*;

verus! {

#[verifier::external_type_specification]
#[verifier::external_body]
pub struct ExSerdeJsonValue(serde_json::Value);

/// A JSON document.
#[derive(Debug)]
pub enum JsonValue {
    Null,
    Bool(bool),
    Number(u64),
    String(String),
    Array(Vec<JsonValue>),
    Object(Vec<(String, JsonValue)>),
}

/// The mathematical content of a JSON document.
pub enum JsonModel {
    Null,
    Bool(bool),
    Number(u64),
    String(Seq<char>),
    Array(Seq<JsonModel>),
    Object(Seq<(Seq<char>, JsonModel)>),
}

/// The content of a document.
pub open spec fn json_model(v: JsonValue) -> JsonModel
    decreases v,
{
    match v {
        JsonValue::Null => JsonModel::Null,
        JsonValue::Bool(b) => JsonModel::Bool(b),
        JsonValue::Number(n) => JsonModel::Number(n),
        JsonValue::String(s) => JsonModel::String(s@),
        JsonValue::Array(a) => JsonModel::Array(json_models(a@)),
        JsonValue::Object(o) => JsonModel::Object(json_members(o@)),
    }
}

/// The contents of a list of documents.
pub open spec fn json_models(s: Seq<JsonValue>) -> Seq<JsonModel>
    decreases s,
{
    if s.len() == 0 {
        seq![]
    } else {
        json_models(s.drop_last()).push(json_model(s.last()))
    }
}

/// The contents of a list of object members.
pub open spec fn json_members(s: Seq<(String, JsonValue)>) -> Seq<(Seq<char>, JsonModel)>
    decreases s,
{
    if s.len() == 0 {
        seq![]
    } else {
        json_members(s.drop_last()).push((s.last().0@, json_model(s.last().1)))
    }
}

impl View for JsonValue {
    type V = JsonModel;

    open spec fn view(&self) -> JsonModel {
        json_model(*self)
    }
}

/// The bytes that `serde_json::to_vec` writes for a document with content `m`.
pub uninterp spec fn json_text(m: JsonModel) -> Seq<u8>;

/// Calls `serde_json::to_vec` on the `serde_json::Value` that `v` stands for;
/// the contract claims that the bytes are the serialisation named `json_text(v@)`.
/// Serialising a `serde_json::Value` does not fail (its keys are strings); the
/// empty default of the error arm is never taken.
#[verifier::external_body]
pub(crate) fn json_to_vec(v: &JsonValue) -> (r: Vec<u8>)
    ensures
        r@ == json_text(v@),
{
    serde_json::to_vec(&to_serde_value(v)).unwrap_or_default()
}

/// Converts a document to `serde_json::Value`, variant by variant.
#[verifier::external_body]
fn to_serde_value(v: &JsonValue) -> serde_json::Value {
    match v {
        JsonValue::Null => serde_json::Value::Null,
        JsonValue::Bool(b) => serde_json::Value::Bool(*b),
        JsonValue::Number(n) => serde_json::Value::from(*n),
        JsonValue::String(s) => serde_json::Value::String(s.clone()),
        JsonValue::Array(a) => serde_json::Value::Array(a.iter().map(to_serde_value).collect()),
        JsonValue::Object(o) => serde_json::Value::Object(o.iter().map(|(k, x)| (k.clone(), to_serde_value(x))).collect()),
    }
}

/// A JSON string holding `s`.
pub fn json_str(s: &str) -> (r: JsonValue)
    ensures
        r@ == JsonModel::String(s@),
{
    JsonValue::String(s.to_owned())
}

/// The JSON array of numbers that serde writes for a byte vector.
pub open spec fn json_byte_array(b: Seq<u8>) -> JsonModel {
    JsonModel::Array(Seq::new(b.len(), |i: int| JsonModel::Number(b[i] as u64)))
}

/// Encodes bytes as a JSON array of numbers, as serde does for `Vec<u8>`.
pub fn json_bytes(b: &[u8]) -> (r: JsonValue)
    ensures
        r@ == json_byte_array(b@),
{
    let mut a: Vec<JsonValue> = Vec::new();
    let n = b.len();
    let mut i: usize = 0;
    while i < n
        invariant
            n == b@.len(),
            i <= n,
            json_models(a@) =~= Seq::new(i as nat, |j: int| JsonModel::Number(b@[j] as u64)),
        decreases n - i,
    {
        let ghost prev = a@;
        a.push(JsonValue::Number(b[i] as u64));
        assert(a@.drop_last() =~= prev);
        assert(json_models(a@) == json_models(prev).push(json_model(a@.last())));
        i = i + 1;
        assert(json_models(a@) =~= Seq::new(i as nat, |j: int| JsonModel::Number(b@[j] as u64)));
    }
    JsonValue::Array(a)
}

/// An empty list of object members.
pub fn new_members() -> (r: Vec<(String, JsonValue)>)
    ensures
        r@.len() == 0,
        json_members(r@) == Seq::<(Seq<char>, JsonModel)>::empty(),
{
    Vec::new()
}

/// An empty list of documents.
pub fn new_elements() -> (r: Vec<JsonValue>)
    ensures
        r@.len() == 0,
        json_models(r@) == Seq::<JsonModel>::empty(),
{
    Vec::new()
}

/// Appends an element to a list of documents.
pub fn push_element(elements: &mut Vec<JsonValue>, v: JsonValue)
    ensures
        json_models(final(elements)@) == json_models(old(elements)@).push(v@),
{
    let ghost prev = elements@;
    elements.push(v);
    assert(elements@.drop_last() =~= prev);
}

/// Appends the member `key: v` to a list of object members.
pub fn push_member(members: &mut Vec<(String, JsonValue)>, key: &str, v: JsonValue)
    ensures
        json_members(final(members)@) == json_members(old(members)@).push((key@, v@)),
{
    let ghost prev = members@;
    members.push((key.to_owned(), v));
    assert(members@.drop_last() =~= prev);
}

/// A JSON array with the given elements.
pub fn json_array(elements: Vec<JsonValue>) -> (r: JsonValue)
    ensures
        r@ == JsonModel::Array(json_models(elements@)),
{
    JsonValue::Array(elements)
}

/// A JSON object with the given members, in the given order.
pub fn json_object(members: Vec<(String, JsonValue)>) -> (r: JsonValue)
    ensures
        r@ == JsonModel::Object(json_members(members@)),
{
    JsonValue::Object(members)
}

/// The JSON value of an optional string: the string, or `null`.
pub fn json_opt_str(s: &Option<String>) -> (r: JsonValue)
    ensures
        r@ == match s {
            Some(t) => JsonModel::String(t@),
            None => JsonModel::Null,
        },
{
    match s {
        Some(t) => JsonValue::String(t.clone()),
        None => JsonValue::Null,
    }
}

/// What reading `bytes` with `serde_json::from_slice` and looking up the
/// member `key` as an unsigned integer gives: the text of the parse error, or
/// the member (`None` where it is missing or not a `u64`).
pub uninterp spec fn json_u64_member(bytes: Seq<u8>, key: Seq<char>) -> Result<Option<u64>, Seq<char>>;

/// What reading `bytes` with `serde_json::from_slice` and looking up the
/// member `key` as a string gives: the text of the parse error, or the member
/// (`None` where it is missing or not a string).
pub uninterp spec fn json_str_member(bytes: Seq<u8>, key: Seq<char>) -> Result<Option<Seq<char>>, Seq<char>>;

/// Calls `serde_json::from_slice` into a `serde_json::Value`, then its `get`
/// and `as_u64`; the contract claims that the outcome, the error's text
/// included, is the one named `json_u64_member` for these bytes and this key.
#[verifier::external_body]
pub(crate) fn lookup_u64_member(bytes: &[u8], key: &str) -> (r: Result<Option<u64>, String>)
    ensures
        match r {
            Ok(o) => json_u64_member(bytes@, key@) == Ok::<Option<u64>, Seq<char>>(o),
            Err(e) => json_u64_member(bytes@, key@) == Err::<Option<u64>, Seq<char>>(e@),
        },
{
    match serde_json::from_slice::<serde_json::Value>(bytes) {
        Ok(v) => match v.get(key) {
            Some(m) => Ok(m.as_u64()),
            None => Ok(None),
        },
        Err(e) => Err(e.to_string()),
    }
}

/// Calls `serde_json::from_slice` into a `serde_json::Value`, then its `get`
/// and `as_str`; the contract claims that the outcome, the error's text
/// included, is the one named `json_str_member` for these bytes and this key.
#[verifier::external_body]
pub(crate) fn lookup_str_member(bytes: &[u8], key: &str) -> (r: Result<Option<String>, String>)
    ensures
        match r {
            Ok(Some(t)) => json_str_member(bytes@, key@) == Ok::<Option<Seq<char>>, Seq<char>>(Some(t@)),
            Ok(None) => json_str_member(bytes@, key@) == Ok::<Option<Seq<char>>, Seq<char>>(None),
            Err(e) => json_str_member(bytes@, key@) == Err::<Option<Seq<char>>, Seq<char>>(e@),
        },
{
    match serde_json::from_slice::<serde_json::Value>(bytes) {
        Ok(v) => match v.get(key) {
            Some(m) => Ok(m.as_str().map(str::to_owned)),
            None => Ok(None),
        },
        Err(e) => Err(e.to_string()),
    }
}

/// The names of an object's members, in order; none for any other document.
pub open spec fn member_names(d: JsonModel) -> Seq<Seq<char>> {
    match d {
        JsonModel::Object(ms) => Seq::new(ms.len(), |i: int| ms[i].0),
        _ => seq![],
    }
}

/// The value of the first member named `key` among `ms`.
pub open spec fn first_member(ms: Seq<(Seq<char>, JsonModel)>, key: Seq<char>) -> Option<JsonModel>
    decreases ms.len(),
{
    if ms.len() == 0 {
        None
    } else if ms[0].0 == key {
        Some(ms[0].1)
    } else {
        first_member(ms.skip(1), key)
    }
}

/// The value of the member named `key` of an object; none for any other
/// document.
pub open spec fn member(d: JsonModel, key: Seq<char>) -> Option<JsonModel> {
    match d {
        JsonModel::Object(ms) => first_member(ms, key),
        _ => None,
    }
}

/// The JSON array that serde writes for a byte vector holds one number per
/// byte, in order.
pub proof fn law_json_byte_array(b: Seq<u8>)
    ensures
        json_byte_array(b) matches JsonModel::Array(a) && a.len() == b.len() && forall|i: int|
            0 <= i < b.len() ==> #[trigger] a[i] == JsonModel::Number(b[i] as u64),
{
}

/// Where no earlier member shares its name, the member at `i` is the one
/// that its name finds.
pub proof fn lemma_first_member_at(ms: Seq<(Seq<char>, JsonModel)>, i: int)
    requires
        0 <= i < ms.len(),
        forall|j: int| 0 <= j < i ==> (#[trigger] ms[j]).0 != ms[i].0,
    ensures
        first_member(ms, ms[i].0) == Some(ms[i].1),
    decreases i,
{
    if i > 0 {
        assert(ms[0].0 != ms[i].0);
        let t = ms.skip(1);
        assert forall|j: int| 0 <= j < i - 1 implies (#[trigger] t[j]).0 != t[i - 1].0 by {
            assert(t[j] == ms[j + 1]);
        }
        lemma_first_member_at(t, i - 1);
        assert(t[i - 1] == ms[i]);
    }
}

} // verus!
