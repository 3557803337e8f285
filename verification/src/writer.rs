use vstd::prelude::*;

use crate::json::{all_strs, encode_json, json_bytes_of, spec_lookup, str_views, JsonValue};
use crate::numfmt::{i64_to_string, spec_digits, spec_int_str, u64_to_string};
use crate::records::{MapData, MapDataModel};
use crate::report::models_of;
use crate::strutil::{join_commas, spec_join_commas};

verus! {

/// Whether `e` is an object entry holding a string value.
pub open spec fn entry_is_str(e: (String, JsonValue), key: Seq<char>, val: Seq<char>) -> bool {
    &&& e.0@ == key
    &&& e.1 matches JsonValue::Str(s) && s@ == val
}

/// Whether `e` is an object entry holding an integer value.
pub open spec fn entry_is_int(e: (String, JsonValue), key: Seq<char>, n: int) -> bool {
    &&& e.0@ == key
    &&& e.1 matches JsonValue::Int(i) && i as int == n
}

/// Whether `e` is an object entry holding an array of exactly the given
/// strings, in order.
pub open spec fn entry_is_str_arr(
    e: (String, JsonValue),
    key: Seq<char>,
    vals: Seq<Seq<char>>,
) -> bool {
    &&& e.0@ == key
    &&& e.1 matches JsonValue::Arr(items) && all_strs(items@) && str_views(items@) == vals
}

/// The fixed part of a record's output object, from `off` on:
/// `mappers`, `music`, `title`, `version`, in that order.
pub open spec fn output_tail(e: Seq<(String, JsonValue)>, off: int, m: MapDataModel) -> bool {
    &&& entry_is_str_arr(e[off], "mappers"@, m.mappers)
    &&& entry_is_str(e[off + 1], "music"@, m.music)
    &&& entry_is_str(e[off + 2], "title"@, m.title)
    &&& entry_is_int(e[off + 3], "version"@, m.version)
}

/// The output-name-space object one record serializes to: an `artist`
/// entry exactly when the record has an artist, then the fixed fields.
/// `difficulties_location` is read-side only and never emitted.
pub open spec fn record_output_obj(v: JsonValue, m: MapDataModel) -> bool {
    &&& v is Obj
    &&& ({
        let e = v->Obj_0@;
        match m.artist {
            Some(a) => e.len() == 5 && entry_is_str(e[0], "artist"@, a) && output_tail(e, 1, m),
            None => e.len() == 4 && output_tail(e, 0, m),
        }
    })
}

/// The JSON report document: an array holding one output object per
/// record, in report order.
pub open spec fn report_output_json(v: JsonValue, ms: Seq<MapDataModel>) -> bool {
    &&& v is Arr
    &&& v->Arr_0@.len() == ms.len()
    &&& forall|i: int| 0 <= i < ms.len() ==> record_output_obj(#[trigger] v->Arr_0@[i], ms[i])
}

/// Builds the output-name-space object for one record.
pub fn json_from_record(rec: &MapData) -> (v: JsonValue)
    ensures
        record_output_obj(v, rec@),
{
    let mut mapper_items: Vec<JsonValue> = Vec::new();
    let mut i: usize = 0;
    while i < rec.mappers.len()
        invariant
            0 <= i <= rec.mappers@.len(),
            mapper_items@.len() == i,
            forall|j: int|
                0 <= j < i ==> (#[trigger] mapper_items@[j]) is Str && mapper_items@[j]->Str_0@
                    == rec.mappers@[j]@,
        decreases rec.mappers@.len() - i,
    {
        mapper_items.push(JsonValue::Str(rec.mappers[i].clone()));
        i += 1;
    }
    proof {
        assert(str_views(mapper_items@) =~= rec@.mappers);
    }
    let mut entries: Vec<(String, JsonValue)> = Vec::new();
    match &rec.artist {
        Some(a) => {
            entries.push(("artist".to_owned(), JsonValue::Str(a.clone())));
        },
        None => {},
    }
    entries.push(("mappers".to_owned(), JsonValue::Arr(mapper_items)));
    entries.push(("music".to_owned(), JsonValue::Str(rec.music.clone())));
    entries.push(("title".to_owned(), JsonValue::Str(rec.title.clone())));
    entries.push(("version".to_owned(), JsonValue::Int(rec.version)));
    JsonValue::Obj(entries)
}

/// Renders the whole report as a JSON array in the output name space.
pub fn render_json(report: &Vec<MapData>) -> (r: Vec<u8>)
    ensures
        exists|v: JsonValue|
            report_output_json(v, models_of(report@)) && r@ == json_bytes_of(v),
{
    let mut objs: Vec<JsonValue> = Vec::new();
    let mut i: usize = 0;
    while i < report.len()
        invariant
            0 <= i <= report@.len(),
            objs@.len() == i,
            forall|j: int|
                0 <= j < i ==> record_output_obj(#[trigger] objs@[j], report@[j]@),
        decreases report@.len() - i,
    {
        let obj = json_from_record(&report[i]);
        objs.push(obj);
        i += 1;
    }
    let doc = JsonValue::Arr(objs);
    proof {
        assert(report_output_json(doc, models_of(report@)));
    }
    let bytes = encode_json(&doc);
    proof {
        assert(report_output_json(doc, models_of(report@)) && bytes@ == json_bytes_of(doc));
    }
    bytes
}

/// One flat CSV row, derived from one record.
#[derive(Debug, Clone, PartialEq)]
pub struct CsvRowData {
    pub title: String,
    pub artist: String,
    pub mappers: String,
    pub difficulties_amount: usize,
    pub version: i64,
}

/// The CSV `artist` column: the artist, or empty when absent.
pub open spec fn spec_csv_artist(a: Option<Seq<char>>) -> Seq<char> {
    match a {
        Some(s) => s,
        None => Seq::<char>::empty(),
    }
}

/// Derives the flat CSV row of one record: title verbatim, artist or
/// empty, mappers joined with commas in order, the difficulty-file count,
/// and the version verbatim.
pub fn csv_row_of(rec: &MapData) -> (row: CsvRowData)
    ensures
        row.title@ == rec@.title,
        row.artist@ == spec_csv_artist(rec@.artist),
        row.mappers@ == spec_join_commas(rec@.mappers),
        row.difficulties_amount == rec@.difficulties_location.len(),
        row.version as int == rec@.version,
{
    CsvRowData {
        title: rec.title.clone(),
        artist: match &rec.artist {
            Some(a) => a.clone(),
            None => String::new(),
        },
        mappers: join_commas(&rec.mappers),
        difficulties_amount: rec.difficulties_location.len(),
        version: rec.version,
    }
}

/// What one encoded CSV record reads as, as a function of its fields
/// alone: the quoting of a field is the csv writer's affair.
pub uninterp spec fn csv_record_of(fields: Seq<Seq<char>>) -> Seq<u8>;

/// Relies on csv::Writer::write_record: encodes the given fields as one
/// CSV record with a terminator, deterministically. Writing to an
/// in-memory buffer never fails.
#[verifier::external_body]
fn csv_record_bytes(fields: &Vec<String>) -> (r: Vec<u8>)
    ensures
        r@ == csv_record_of(fields.deep_view()),
{
    let mut w = csv::Writer::from_writer(Vec::new());
    let _ = w.write_record(fields.iter());
    w.into_inner().unwrap_or_default()
}

/// The header record's fields, in column order.
pub open spec fn spec_csv_header() -> Seq<Seq<char>> {
    seq!["title"@, "artist"@, "mappers"@, "difficultiesAmount"@, "version"@]
}

/// The fields of one record's CSV row, in column order.
pub open spec fn spec_row_fields(m: MapDataModel) -> Seq<Seq<char>> {
    seq![
        m.title,
        spec_csv_artist(m.artist),
        spec_join_commas(m.mappers),
        spec_digits(m.difficulties_location.len()),
        spec_int_str(m.version),
    ]
}

/// The data records of the CSV output, one per report row, in order.
pub open spec fn spec_csv_rows(ms: Seq<MapDataModel>) -> Seq<u8>
    decreases ms.len(),
{
    if ms.len() == 0 {
        Seq::<u8>::empty()
    } else {
        spec_csv_rows(ms.drop_last()) + csv_record_of(spec_row_fields(ms.last()))
    }
}

/// The whole CSV output: the header record, then the data records.
pub open spec fn spec_csv_output(ms: Seq<MapDataModel>) -> Seq<u8> {
    csv_record_of(spec_csv_header()) + spec_csv_rows(ms)
}

/// Renders the whole report as CSV: a header record, then one record per
/// report row, in report order.
pub fn render_csv(report: &Vec<MapData>) -> (r: Vec<u8>)
    ensures
        r@ == spec_csv_output(models_of(report@)),
{
    let mut header: Vec<String> = Vec::new();
    header.push("title".to_owned());
    header.push("artist".to_owned());
    header.push("mappers".to_owned());
    header.push("difficultiesAmount".to_owned());
    header.push("version".to_owned());
    proof {
        assert(header.deep_view() =~= spec_csv_header());
    }
    let mut out = csv_record_bytes(&header);
    let mut i: usize = 0;
    proof {
        assert(models_of(report@).take(0) =~= Seq::<MapDataModel>::empty());
        assert(out@ =~= spec_csv_output(models_of(report@).take(0)));
    }
    while i < report.len()
        invariant
            0 <= i <= report@.len(),
            models_of(report@).len() == report@.len(),
            out@ == spec_csv_output(models_of(report@).take(i as int)),
        decreases report@.len() - i,
    {
        let row = csv_row_of(&report[i]);
        let mut fields: Vec<String> = Vec::new();
        fields.push(row.title);
        fields.push(row.artist);
        fields.push(row.mappers);
        fields.push(u64_to_string(row.difficulties_amount as u64));
        fields.push(i64_to_string(row.version));
        proof {
            assert(models_of(report@)[i as int] == report@[i as int]@);
            assert(fields.deep_view() =~= spec_row_fields(models_of(report@)[i as int]));
        }
        let mut rec_bytes = csv_record_bytes(&fields);
        out.append(&mut rec_bytes);
        proof {
            let ms = models_of(report@);
            assert(ms.take(i + 1).drop_last() =~= ms.take(i as int));
            assert(ms.take(i + 1).last() == ms[i as int]);
            assert(out@ =~= spec_csv_output(ms.take(i + 1)));
        }
        i += 1;
    }
    proof {
        assert(models_of(report@).take(report@.len() as int) =~= models_of(report@));
    }
    out
}

} // verus!
