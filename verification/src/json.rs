use vstd::prelude::*;

use crate::strutil::string_eq_str;

verus! {

/// A structured document, as the parser hands it to the schema layer.
/// Mirrors the shape of a JSON value with plain library types, so that
/// the field-mapping logic can be verified over it. A number that is not
/// representable as an `i64` (fractional, or out of range) is carried as
/// `NumOther`: the schema layer only ever needs to know that such a value
/// is not a usable integer.
#[derive(Debug, PartialEq)]
pub enum JsonValue {
    Null,
    Bool(bool),
    Int(i64),
    NumOther,
    Str(String),
    Arr(Vec<JsonValue>),
    Obj(Vec<(String, JsonValue)>),
}

/// The serde_json value type, carried through the trusted conversion below.
#[verifier::external_type_specification]
#[verifier::external_body]
pub struct ExValue(serde_json::Value);

/// What decoding a byte sequence as a JSON document yields: `Some` with the
/// document for valid JSON, `None` for invalid input. Decoding is a function
/// of the bytes alone.
pub uninterp spec fn json_doc_of(bytes: Seq<u8>) -> Option<JsonValue>;

/// What encoding a document as JSON text yields. Encoding is a function of
/// the document alone.
pub uninterp spec fn json_bytes_of(doc: JsonValue) -> Seq<u8>;

/// Relies on the shape of serde_json::Value: one arm per variant, moving the
/// payload into the library's own document type. A number is kept when
/// serde_json::Number::as_i64 can represent it and marked `NumOther`
/// otherwise.
#[verifier::external_body]
fn of_value(v: serde_json::Value) -> JsonValue {
    match v {
        serde_json::Value::Null => JsonValue::Null,
        serde_json::Value::Bool(b) => JsonValue::Bool(b),
        serde_json::Value::Number(n) => match n.as_i64() {
            Some(i) => JsonValue::Int(i),
            None => JsonValue::NumOther,
        },
        serde_json::Value::String(s) => JsonValue::Str(s),
        serde_json::Value::Array(a) => JsonValue::Arr(a.into_iter().map(of_value).collect()),
        serde_json::Value::Object(m) => JsonValue::Obj(
            m.into_iter().map(|(k, val)| (k, of_value(val))).collect(),
        ),
    }
}

/// Relies on the shape of serde_json::Value: one arm per variant, moving the
/// payload of the library's document type into it. `NumOther` round-trips as
/// null; the library never encodes a document holding it.
#[verifier::external_body]
fn to_value(v: &JsonValue) -> serde_json::Value {
    match v {
        JsonValue::Null => serde_json::Value::Null,
        JsonValue::Bool(b) => serde_json::Value::Bool(*b),
        JsonValue::Int(i) => serde_json::Value::Number(serde_json::Number::from(*i)),
        JsonValue::NumOther => serde_json::Value::Null,
        JsonValue::Str(s) => serde_json::Value::String(s.clone()),
        JsonValue::Arr(a) => serde_json::Value::Array(a.iter().map(to_value).collect()),
        JsonValue::Obj(m) => serde_json::Value::Object(
            m.iter().map(|p| (p.0.clone(), to_value(&p.1))).collect(),
        ),
    }
}

/// Relies on serde_json::from_slice: decodes a byte sequence as one JSON
/// document, deterministically; invalid JSON yields an error.
#[verifier::external_body]
pub fn parse_json(bytes: &Vec<u8>) -> (r: Option<JsonValue>)
    ensures
        r == json_doc_of(bytes@),
{
    serde_json::from_slice::<serde_json::Value>(bytes.as_slice()).ok().map(of_value)
}

/// Relies on serde_json::to_vec: encodes a document as JSON text,
/// deterministically. Encoding a Value never fails: its keys are strings
/// and its writer is an in-memory buffer.
#[verifier::external_body]
pub fn encode_json(doc: &JsonValue) -> (r: Vec<u8>)
    ensures
        r@ == json_bytes_of(*doc),
{
    serde_json::to_vec(&to_value(doc)).unwrap_or_default()
}

/// First entry of `entries` whose key reads `key`, if any.
pub open spec fn spec_lookup(entries: Seq<(String, JsonValue)>, key: Seq<char>) -> Option<
    JsonValue,
>
    decreases entries.len(),
{
    if entries.len() == 0 {
        None
    } else if entries[0].0@ == key {
        Some(entries[0].1)
    } else {
        spec_lookup(entries.drop_first(), key)
    }
}

/// Finds the first entry with the given key among an object's entries.
pub fn lookup<'a>(entries: &'a Vec<(String, JsonValue)>, key: &str) -> (r: Option<
    &'a JsonValue,
>)
    ensures
        r matches Some(v) ==> spec_lookup(entries@, key@) == Some(*v),
        r is None ==> spec_lookup(entries@, key@) is None,
{
    let mut i: usize = 0;
    proof {
        assert(entries@.skip(0) =~= entries@);
    }
    while i < entries.len()
        invariant
            0 <= i <= entries@.len(),
            spec_lookup(entries@, key@) == spec_lookup(entries@.skip(i as int), key@),
        decreases entries@.len() - i,
    {
        let pair = &entries[i];
        if string_eq_str(&pair.0, key) {
            proof {
                assert(entries@.skip(i as int)[0] == entries@[i as int]);
            }
            return Some(&pair.1);
        }
        proof {
            assert(entries@.skip(i as int).drop_first() =~= entries@.skip(i + 1));
        }
        i += 1;
    }
    proof {
        assert(entries@.skip(entries@.len() as int) =~= Seq::<(String, JsonValue)>::empty());
    }
    None
}

/// Looking a key up finds the entry at `k` when no earlier entry carries
/// that key.
pub proof fn lemma_lookup_index(entries: Seq<(String, JsonValue)>, key: Seq<char>, k: int)
    requires
        0 <= k < entries.len(),
        entries[k].0@ == key,
        forall|j: int| 0 <= j < k ==> (#[trigger] entries[j]).0@ != key,
    ensures
        spec_lookup(entries, key) == Some(entries[k].1),
    decreases k,
{
    if k > 0 {
        assert(entries[0].0@ != key);
        let rest = entries.drop_first();
        assert forall|j: int| 0 <= j < k - 1 implies (#[trigger] rest[j]).0@ != key by {
            assert(rest[j] == entries[j + 1]);
        }
        assert(rest[k - 1] == entries[k]);
        lemma_lookup_index(rest, key, k - 1);
    }
}

/// Looking a key up that no entry carries finds nothing.
pub proof fn lemma_lookup_absent(entries: Seq<(String, JsonValue)>, key: Seq<char>)
    requires
        forall|j: int| 0 <= j < entries.len() ==> (#[trigger] entries[j]).0@ != key,
    ensures
        spec_lookup(entries, key) is None,
    decreases entries.len(),
{
    if entries.len() > 0 {
        let rest = entries.drop_first();
        assert forall|j: int| 0 <= j < rest.len() implies (#[trigger] rest[j]).0@ != key by {
            assert(rest[j] == entries[j + 1]);
        }
        lemma_lookup_absent(rest, key);
    }
}

/// Whether every element of `items` is a string value.
pub open spec fn all_strs(items: Seq<JsonValue>) -> bool {
    forall|i: int| 0 <= i < items.len() ==> items[i] is Str
}

/// The contents of the string values in `items`, in order.
pub open spec fn str_views(items: Seq<JsonValue>) -> Seq<Seq<char>> {
    items.map_values(|v: JsonValue| v->Str_0@)
}

} // verus!
