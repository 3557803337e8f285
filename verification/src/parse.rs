use vstd::prelude::*;

use crate::json::{all_strs, json_doc_of, lookup, parse_json, spec_lookup, str_views, JsonValue};
use crate::records::{MapData, MapDataModel, ParseError};

verus! {

/// A required string field: the value under `key`, when it is a string.
pub open spec fn req_str(entries: Seq<(String, JsonValue)>, key: Seq<char>) -> Option<Seq<char>> {
    match spec_lookup(entries, key) {
        Some(JsonValue::Str(s)) => Some(s@),
        _ => None,
    }
}

/// A required integer field: the value under `key`, when it is an integer.
pub open spec fn req_int(entries: Seq<(String, JsonValue)>, key: Seq<char>) -> Option<int> {
    match spec_lookup(entries, key) {
        Some(JsonValue::Int(i)) => Some(i as int),
        _ => None,
    }
}

/// An optional string field: absent and null both read as `None`; any
/// other non-string value is a schema error.
pub open spec fn opt_str(entries: Seq<(String, JsonValue)>, key: Seq<char>) -> Result<
    Option<Seq<char>>,
    (),
> {
    match spec_lookup(entries, key) {
        None => Ok(None),
        Some(JsonValue::Null) => Ok(None),
        Some(JsonValue::Str(s)) => Ok(Some(s@)),
        Some(_) => Err(()),
    }
}

/// A string field that defaults to the empty string when absent; a present
/// non-string value is a schema error.
pub open spec fn str_or_empty(entries: Seq<(String, JsonValue)>, key: Seq<char>) -> Result<
    Seq<char>,
    (),
> {
    match spec_lookup(entries, key) {
        None => Ok(Seq::<char>::empty()),
        Some(JsonValue::Str(s)) => Ok(s@),
        Some(_) => Err(()),
    }
}

/// A string-list field that defaults to the empty list when absent; a
/// present value that is not an array of strings is a schema error.
pub open spec fn str_arr_or_empty(entries: Seq<(String, JsonValue)>, key: Seq<char>) -> Result<
    Seq<Seq<char>>,
    (),
> {
    match spec_lookup(entries, key) {
        None => Ok(Seq::<Seq<char>>::empty()),
        Some(JsonValue::Arr(items)) => if all_strs(items@) {
            Ok(str_views(items@))
        } else {
            Err(())
        },
        Some(_) => Err(()),
    }
}

fn get_req_str(entries: &Vec<(String, JsonValue)>, key: &str) -> (r: Option<String>)
    ensures
        r matches Some(s) ==> req_str(entries@, key@) == Some(s@),
        r is None ==> req_str(entries@, key@) is None,
{
    match lookup(entries, key) {
        Some(JsonValue::Str(s)) => Some(s.clone()),
        _ => None,
    }
}

fn get_req_int(entries: &Vec<(String, JsonValue)>, key: &str) -> (r: Option<i64>)
    ensures
        r matches Some(i) ==> req_int(entries@, key@) == Some(i as int),
        r is None ==> req_int(entries@, key@) is None,
{
    match lookup(entries, key) {
        Some(JsonValue::Int(i)) => Some(*i),
        _ => None,
    }
}

fn get_opt_str(entries: &Vec<(String, JsonValue)>, key: &str) -> (r: Result<Option<String>, ()>)
    ensures
        r matches Ok(o) ==> opt_str(entries@, key@) == Ok::<Option<Seq<char>>, ()>(o.deep_view()),
        r is Err ==> opt_str(entries@, key@) is Err,
{
    match lookup(entries, key) {
        None => Ok(None),
        Some(JsonValue::Null) => Ok(None),
        Some(JsonValue::Str(s)) => Ok(Some(s.clone())),
        Some(_) => Err(()),
    }
}

fn get_str_or_empty(entries: &Vec<(String, JsonValue)>, key: &str) -> (r: Result<String, ()>)
    ensures
        r matches Ok(s) ==> str_or_empty(entries@, key@) == Ok::<Seq<char>, ()>(s@),
        r is Err ==> str_or_empty(entries@, key@) is Err,
{
    match lookup(entries, key) {
        None => Ok(String::new()),
        Some(JsonValue::Str(s)) => Ok(s.clone()),
        Some(_) => Err(()),
    }
}

fn get_str_arr_or_empty(entries: &Vec<(String, JsonValue)>, key: &str) -> (r: Result<
    Vec<String>,
    (),
>)
    ensures
        r matches Ok(v) ==> str_arr_or_empty(entries@, key@) == Ok::<Seq<Seq<char>>, ()>(
            v.deep_view(),
        ),
        r is Err ==> str_arr_or_empty(entries@, key@) is Err,
{
    match lookup(entries, key) {
        None => {
            let out: Vec<String> = Vec::new();
            proof {
                assert(out.deep_view() =~= Seq::<Seq<char>>::empty());
            }
            Ok(out)
        },
        Some(JsonValue::Arr(items)) => {
            let mut out: Vec<String> = Vec::new();
            let mut i: usize = 0;
            while i < items.len()
                invariant
                    spec_lookup(entries@, key@) == Some(JsonValue::Arr(*items)),
                    0 <= i <= items@.len(),
                    out@.len() == i,
                    forall|j: int|
                        0 <= j < i ==> (#[trigger] items@[j]) is Str && out@[j]@
                            == items@[j]->Str_0@,
                decreases items@.len() - i,
            {
                match &items[i] {
                    JsonValue::Str(s) => {
                        out.push(s.clone());
                    },
                    _ => {
                        proof {
                            assert(!(items@[i as int] is Str));
                            assert(!all_strs(items@));
                            assert(str_arr_or_empty(entries@, key@) is Err);
                        }
                        return Err(());
                    },
                }
                i += 1;
            }
            proof {
                assert(all_strs(items@));
                assert(out.deep_view() =~= str_views(items@)) by {
                    assert(forall|j: int|
                        0 <= j < items@.len() ==> #[trigger] out.deep_view()[j] == out@[j]@);
                };
            }
            Ok(out)
        },
        Some(_) => Err(()),
    }
}

/// The storage-to-memory schema mapping, as one mathematical function:
/// what one structured document yields as a record. The storage names all
/// carry a leading underscore; `_title` and `_version` are required,
/// everything else defaults when absent.
pub open spec fn spec_parse_record(doc: JsonValue) -> Result<MapDataModel, ParseError> {
    if !(doc is Obj) {
        Err(ParseError::SchemaMismatch)
    } else {
        let e = doc->Obj_0@;
        if req_str(e, "_title"@) is None {
            Err(ParseError::SchemaMismatch)
        } else if req_int(e, "_version"@) is None {
            Err(ParseError::SchemaMismatch)
        } else if opt_str(e, "_artist"@) is Err {
            Err(ParseError::SchemaMismatch)
        } else if str_or_empty(e, "_music"@) is Err {
            Err(ParseError::SchemaMismatch)
        } else if str_arr_or_empty(e, "_mappers"@) is Err {
            Err(ParseError::SchemaMismatch)
        } else if str_arr_or_empty(e, "_difficulties"@) is Err {
            Err(ParseError::SchemaMismatch)
        } else {
            Ok(
                MapDataModel {
                    artist: opt_str(e, "_artist"@)->Ok_0,
                    difficulties_location: str_arr_or_empty(e, "_difficulties"@)->Ok_0,
                    mappers: str_arr_or_empty(e, "_mappers"@)->Ok_0,
                    music: str_or_empty(e, "_music"@)->Ok_0,
                    title: req_str(e, "_title"@)->0,
                    version: req_int(e, "_version"@)->0,
                },
            )
        }
    }
}

/// The record a map record parse yields, as `Ok(model)` or the error.
pub open spec fn parse_outcome(r: Result<MapData, ParseError>) -> Result<MapDataModel, ParseError> {
    match r {
        Ok(rec) => Ok(rec@),
        Err(e) => Err(e),
    }
}

/// Applies the storage-name schema to one structured document: requires
/// `_title` (string) and `_version` (integer), reads the optional fields
/// with their defaults, and rejects any known field of the wrong type.
pub fn record_from_json(doc: &JsonValue) -> (r: Result<MapData, ParseError>)
    ensures
        parse_outcome(r) == spec_parse_record(*doc),
{
    let entries = match doc {
        JsonValue::Obj(entries) => entries,
        _ => {
            return Err(ParseError::SchemaMismatch);
        },
    };
    let title = match get_req_str(entries, "_title") {
        Some(t) => t,
        None => {
            return Err(ParseError::SchemaMismatch);
        },
    };
    let version = match get_req_int(entries, "_version") {
        Some(v) => v,
        None => {
            return Err(ParseError::SchemaMismatch);
        },
    };
    let artist = match get_opt_str(entries, "_artist") {
        Ok(a) => a,
        Err(_) => {
            return Err(ParseError::SchemaMismatch);
        },
    };
    let music = match get_str_or_empty(entries, "_music") {
        Ok(m) => m,
        Err(_) => {
            return Err(ParseError::SchemaMismatch);
        },
    };
    let mappers = match get_str_arr_or_empty(entries, "_mappers") {
        Ok(m) => m,
        Err(_) => {
            return Err(ParseError::SchemaMismatch);
        },
    };
    let difficulties_location = match get_str_arr_or_empty(entries, "_difficulties") {
        Ok(d) => d,
        Err(_) => {
            return Err(ParseError::SchemaMismatch);
        },
    };
    let rec = MapData { artist, difficulties_location, mappers, music, title, version };
    proof {
        assert(rec@ =~= spec_parse_record(*doc)->Ok_0);
    }
    Ok(rec)
}

/// What parsing one metadata file's bytes yields: a malformed-document
/// error when the bytes are not valid JSON, else the schema mapping's
/// verdict on the decoded document.
pub open spec fn spec_meta_parse(bytes: Seq<u8>) -> Result<MapDataModel, ParseError> {
    match json_doc_of(bytes) {
        None => Err(ParseError::MalformedDocument),
        Some(doc) => spec_parse_record(doc),
    }
}

/// What one item's metadata read yields: `NotFound` when the file could
/// not be read at all, else the parse of its bytes.
pub open spec fn spec_data_from_meta(contents: Option<Vec<u8>>) -> Result<
    MapDataModel,
    ParseError,
> {
    match contents {
        None => Err(ParseError::NotFound),
        Some(bytes) => spec_meta_parse(bytes@),
    }
}

/// Parses one item's metadata document. `contents` holds the file's bytes,
/// or `None` when the file could not be opened; reading the file itself is
/// the caller's work.
pub fn get_data_from_meta(contents: &Option<Vec<u8>>) -> (r: Result<MapData, ParseError>)
    ensures
        parse_outcome(r) == spec_data_from_meta(*contents),
{
    let bytes = match contents {
        Some(bytes) => bytes,
        None => {
            return Err(ParseError::NotFound);
        },
    };
    match parse_json(bytes) {
        None => Err(ParseError::MalformedDocument),
        Some(doc) => record_from_json(&doc),
    }
}

} // verus!
