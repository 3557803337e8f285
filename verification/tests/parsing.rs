use map_report::{get_data_from_meta, record_from_json, JsonValue, MapData, ParseError};

fn doc(s: &str) -> Option<Vec<u8>> {
    Some(s.as_bytes().to_vec())
}

#[test]
fn parse_valid_full_record() {
    let contents = doc(
        "{\"_title\":\"Song\",\"_version\":3,\"_artist\":\"Ann\",\"_music\":\"m.ogg\",\
         \"_mappers\":[\"A\",\"B\"],\"_difficulties\":[\"d1.json\"]}",
    );
    let rec = get_data_from_meta(&contents).unwrap();
    assert_eq!(rec.title, "Song");
    assert_eq!(rec.version, 3);
    assert_eq!(rec.artist.as_deref(), Some("Ann"));
    assert_eq!(rec.music, "m.ogg");
    assert_eq!(rec.mappers, vec!["A".to_string(), "B".to_string()]);
    assert_eq!(rec.difficulties_location, vec!["d1.json".to_string()]);
}

#[test]
fn parse_defaults_applied_for_optional_fields() {
    let rec = get_data_from_meta(&doc("{\"_title\":\"T\",\"_version\":1}")).unwrap();
    assert_eq!(rec.artist, None);
    assert!(rec.mappers.is_empty());
    assert!(rec.difficulties_location.is_empty());
    assert_eq!(rec.music, "");
}

#[test]
fn parse_artist_null_reads_as_absent() {
    let rec = get_data_from_meta(&doc("{\"_title\":\"T\",\"_version\":1,\"_artist\":null}"))
        .unwrap();
    assert_eq!(rec.artist, None);
}

#[test]
fn parse_missing_title_is_schema_mismatch() {
    let r = get_data_from_meta(&doc("{\"_version\":3}"));
    assert_eq!(r, Err(ParseError::SchemaMismatch));
}

#[test]
fn parse_missing_version_is_schema_mismatch() {
    let r = get_data_from_meta(&doc("{\"_title\":\"T\"}"));
    assert_eq!(r, Err(ParseError::SchemaMismatch));
}

#[test]
fn parse_wrong_title_type_is_schema_mismatch() {
    let r = get_data_from_meta(&doc("{\"_title\":5,\"_version\":3}"));
    assert_eq!(r, Err(ParseError::SchemaMismatch));
}

#[test]
fn parse_wrong_version_type_is_schema_mismatch() {
    let r = get_data_from_meta(&doc("{\"_title\":\"T\",\"_version\":\"3\"}"));
    assert_eq!(r, Err(ParseError::SchemaMismatch));
}

#[test]
fn parse_fractional_version_is_schema_mismatch() {
    let r = get_data_from_meta(&doc("{\"_title\":\"T\",\"_version\":3.5}"));
    assert_eq!(r, Err(ParseError::SchemaMismatch));
}

#[test]
fn parse_wrong_mappers_type_is_schema_mismatch() {
    let r = get_data_from_meta(&doc("{\"_title\":\"T\",\"_version\":1,\"_mappers\":\"Ann\"}"));
    assert_eq!(r, Err(ParseError::SchemaMismatch));
    let r = get_data_from_meta(&doc("{\"_title\":\"T\",\"_version\":1,\"_mappers\":[1,2]}"));
    assert_eq!(r, Err(ParseError::SchemaMismatch));
}

#[test]
fn parse_non_object_document_is_schema_mismatch() {
    let r = get_data_from_meta(&doc("[1,2,3]"));
    assert_eq!(r, Err(ParseError::SchemaMismatch));
}

#[test]
fn parse_invalid_json_is_malformed_document() {
    let r = get_data_from_meta(&doc("{not json"));
    assert_eq!(r, Err(ParseError::MalformedDocument));
}

#[test]
fn parse_unreadable_file_is_not_found() {
    let r = get_data_from_meta(&None);
    assert_eq!(r, Err(ParseError::NotFound));
}

#[test]
fn parse_reads_storage_names_not_output_names() {
    // The schema mapping is asymmetric: reading uses the storage names
    // with the leading underscore, never the output names.
    let r = get_data_from_meta(&doc("{\"title\":\"T\",\"version\":1}"));
    assert_eq!(r, Err(ParseError::SchemaMismatch));
}

#[test]
fn record_from_json_applies_storage_schema() {
    let docu = JsonValue::Obj(vec![
        ("_title".to_string(), JsonValue::Str("T".to_string())),
        ("_version".to_string(), JsonValue::Int(2)),
    ]);
    let rec = record_from_json(&docu).unwrap();
    assert_eq!(rec.title, "T");
    assert_eq!(rec.version, 2);
}

#[test]
fn parse_error_messages_name_the_cause() {
    assert_eq!(ParseError::NotFound.message(), "could not open the metadata file");
    assert_eq!(ParseError::MalformedDocument.message(), "could not parse the metadata file");
    assert_eq!(
        ParseError::SchemaMismatch.message(),
        "a required field is missing or has the wrong type"
    );
}

#[test]
fn map_data_default_is_empty() {
    let rec = MapData::default();
    assert_eq!(rec.title, "");
    assert_eq!(rec.version, 0);
    assert_eq!(rec.artist, None);
    assert!(rec.mappers.is_empty());
    assert!(rec.difficulties_location.is_empty());
}
