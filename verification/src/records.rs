use vstd::prelude::*;

verus! {

/// Mathematical model of one map record: every field as a plain
/// mathematical value (sequences of characters, an unbounded integer).
#[verifier::ext_equal]
pub struct MapDataModel {
    pub artist: Option<Seq<char>>,
    pub difficulties_location: Seq<Seq<char>>,
    pub mappers: Seq<Seq<char>>,
    pub music: Seq<char>,
    pub title: Seq<char>,
    pub version: int,
}

/// One parsed map item. `title` and `version` are required in the source
/// document; the other fields default to empty when the source omits them.
/// `difficulties_location` is read from the source but never emitted:
/// per-difficulty parsing is a deliberately deferred feature.
#[derive(Debug, Clone, PartialEq)]
pub struct MapData {
    pub artist: Option<String>,
    pub difficulties_location: Vec<String>,
    pub mappers: Vec<String>,
    pub music: String,
    pub title: String,
    pub version: i64,
}

impl View for MapData {
    type V = MapDataModel;

    open spec fn view(&self) -> MapDataModel {
        MapDataModel {
            artist: self.artist.deep_view(),
            difficulties_location: self.difficulties_location.deep_view(),
            mappers: self.mappers.deep_view(),
            music: self.music@,
            title: self.title@,
            version: self.version as int,
        }
    }
}

impl Default for MapData {
    fn default() -> (r: Self)
        ensures
            r@.artist is None,
            r@.difficulties_location.len() == 0,
            r@.mappers.len() == 0,
            r@.music.len() == 0,
            r@.title.len() == 0,
            r@.version == 0,
    {
        MapData {
            artist: None,
            difficulties_location: Vec::new(),
            mappers: Vec::new(),
            music: String::new(),
            title: String::new(),
            version: 0,
        }
    }
}

/// One difficulty entry of a map. Reserved for the deferred per-difficulty
/// parsing feature; no part of the current pipeline fills it.
#[derive(Debug, Clone, PartialEq)]
pub struct MapDataDifficulty {
    pub ad: i32,
    pub at: i32,
    pub name: String,
}

impl Default for MapDataDifficulty {
    fn default() -> (r: Self)
        ensures
            r.ad == 0,
            r.at == 0,
            r.name@ == Seq::<char>::empty(),
    {
        MapDataDifficulty { ad: 0, at: 0, name: String::new() }
    }
}

/// Why one item's metadata document yielded no record.
#[derive(Debug, Clone, Copy, PartialEq, Eq, Structural)]
pub enum ParseError {
    /// The metadata file could not be opened or read.
    NotFound,
    /// The content is not a valid structured document.
    MalformedDocument,
    /// A required field is missing, or a known field has the wrong type.
    SchemaMismatch,
}

/// The description each failure cause reads as in a diagnostic.
pub open spec fn error_text(e: ParseError) -> Seq<char> {
    match e {
        ParseError::NotFound => "could not open the metadata file"@,
        ParseError::MalformedDocument => "could not parse the metadata file"@,
        ParseError::SchemaMismatch => "a required field is missing or has the wrong type"@,
    }
}

impl ParseError {
    /// A human-readable description of the failure cause.
    pub fn message(&self) -> (r: String)
        ensures
            r@ == error_text(*self),
    {
        match self {
            ParseError::NotFound => "could not open the metadata file".to_owned(),
            ParseError::MalformedDocument => "could not parse the metadata file".to_owned(),
            ParseError::SchemaMismatch => "a required field is missing or has the wrong type".to_owned(),
        }
    }
}

} // verus!
