use map_report::{csv_row_of, get_data_from_meta, render_csv, render_json, MapData};

fn rec(
    title: &str,
    version: i64,
    artist: Option<&str>,
    mappers: &[&str],
    diffs: &[&str],
    music: &str,
) -> MapData {
    MapData {
        artist: artist.map(|a| a.to_string()),
        difficulties_location: diffs.iter().map(|d| d.to_string()).collect(),
        mappers: mappers.iter().map(|m| m.to_string()).collect(),
        music: music.to_string(),
        title: title.to_string(),
        version,
    }
}

#[test]
fn csv_row_joins_mappers_in_order() {
    let row = csv_row_of(&rec("T", 1, None, &["A", "B"], &[], ""));
    assert_eq!(row.mappers, "A,B");
}

#[test]
fn csv_row_empty_mappers_is_empty_field() {
    let row = csv_row_of(&rec("T", 1, None, &[], &[], ""));
    assert_eq!(row.mappers, "");
}

#[test]
fn csv_row_absent_artist_is_empty_string() {
    let row = csv_row_of(&rec("T", 1, None, &[], &[], ""));
    assert_eq!(row.artist, "");
    let row = csv_row_of(&rec("T", 1, Some("Ann"), &[], &[], ""));
    assert_eq!(row.artist, "Ann");
}

#[test]
fn csv_row_counts_difficulty_files() {
    let row = csv_row_of(&rec("T", 5, None, &[], &["d1.json", "d2.json"], ""));
    assert_eq!(row.difficulties_amount, 2);
}

#[test]
fn csv_output_exact_single_row() {
    let report = vec![rec("Song One", 3, None, &["Alice"], &[], "")];
    let out = String::from_utf8(render_csv(&report)).unwrap();
    assert_eq!(out, "title,artist,mappers,difficultiesAmount,version\nSong One,,Alice,0,3\n");
}

#[test]
fn csv_output_quotes_joined_field_with_comma() {
    // The join character and the CSV delimiter are both commas, so the
    // csv writer has to quote the joined mappers field.
    let report = vec![rec("T", 1, None, &["A", "B"], &[], "")];
    let out = String::from_utf8(render_csv(&report)).unwrap();
    assert_eq!(out, "title,artist,mappers,difficultiesAmount,version\nT,,\"A,B\",0,1\n");
}

#[test]
fn csv_output_header_only_for_empty_report() {
    let out = String::from_utf8(render_csv(&Vec::new())).unwrap();
    assert_eq!(out, "title,artist,mappers,difficultiesAmount,version\n");
}

#[test]
fn json_output_uses_output_names_and_skips_difficulties() {
    let report = vec![rec("T", 7, Some("Ann"), &["A", "B"], &["d1.json"], "m.ogg")];
    let bytes = render_json(&report);
    let v: serde_json::Value = serde_json::from_slice(&bytes).unwrap();
    let arr = v.as_array().unwrap();
    assert_eq!(arr.len(), 1);
    let obj = arr[0].as_object().unwrap();
    assert_eq!(obj.get("title").unwrap().as_str(), Some("T"));
    assert_eq!(obj.get("version").unwrap().as_i64(), Some(7));
    assert_eq!(obj.get("artist").unwrap().as_str(), Some("Ann"));
    assert_eq!(obj.get("music").unwrap().as_str(), Some("m.ogg"));
    let mappers = obj.get("mappers").unwrap().as_array().unwrap();
    assert_eq!(mappers.len(), 2);
    assert_eq!(mappers[0].as_str(), Some("A"));
    assert_eq!(mappers[1].as_str(), Some("B"));
    assert!(obj.get("difficulties").is_none());
    assert!(obj.get("_difficulties").is_none());
    assert!(obj.get("_title").is_none());
}

#[test]
fn json_output_absent_artist_is_absent_key() {
    let report = vec![rec("T", 1, None, &[], &[], "")];
    let bytes = render_json(&report);
    let v: serde_json::Value = serde_json::from_slice(&bytes).unwrap();
    let obj = v.as_array().unwrap()[0].as_object().unwrap().clone();
    // The key is missing entirely: not present as null, not as "".
    assert!(!obj.contains_key("artist"));
}

#[test]
fn json_output_empty_report_is_empty_array() {
    let bytes = render_json(&Vec::new());
    assert_eq!(String::from_utf8(bytes).unwrap(), "[]");
}

#[test]
fn json_round_trip_recovers_record() {
    let contents = Some(
        "{\"_title\":\"Song\",\"_version\":3,\"_artist\":\"Ann\",\"_music\":\"m.ogg\",\
         \"_mappers\":[\"A\",\"B\"],\"_difficulties\":[\"d1.json\"]}"
            .as_bytes()
            .to_vec(),
    );
    let parsed = get_data_from_meta(&contents).unwrap();
    let bytes = render_json(&vec![parsed.clone()]);
    let v: serde_json::Value = serde_json::from_slice(&bytes).unwrap();
    let obj = v.as_array().unwrap()[0].as_object().unwrap().clone();
    // Field for field, excluding the read-side-only difficulties list.
    assert_eq!(obj.get("title").unwrap().as_str().unwrap(), parsed.title);
    assert_eq!(obj.get("version").unwrap().as_i64().unwrap(), parsed.version);
    assert_eq!(obj.get("artist").unwrap().as_str(), parsed.artist.as_deref());
    assert_eq!(obj.get("music").unwrap().as_str().unwrap(), parsed.music);
    let mappers: Vec<String> = obj
        .get("mappers")
        .unwrap()
        .as_array()
        .unwrap()
        .iter()
        .map(|s| s.as_str().unwrap().to_string())
        .collect();
    assert_eq!(mappers, parsed.mappers);
}

#[test]
fn number_rendering_exact() {
    assert_eq!(map_report::numfmt::u64_to_string(0), "0");
    assert_eq!(map_report::numfmt::u64_to_string(1234567890), "1234567890");
    assert_eq!(map_report::numfmt::i64_to_string(-42), "-42");
    assert_eq!(map_report::numfmt::i64_to_string(i64::MAX), "9223372036854775807");
    assert_eq!(map_report::numfmt::i64_to_string(i64::MIN), "-9223372036854775808");
}

#[test]
fn csv_renders_negative_version() {
    let report = vec![rec("T", -4, None, &[], &[], "")];
    let out = String::from_utf8(render_csv(&report)).unwrap();
    assert_eq!(out, "title,artist,mappers,difficultiesAmount,version\nT,,,0,-4\n");
}
