use vstd::prelude::*;

use crate::json::{lemma_lookup_absent, lemma_lookup_index, spec_lookup, JsonValue};
use crate::parse::{opt_str, req_int, req_str, spec_parse_record, str_arr_or_empty, str_or_empty};
use crate::records::{MapDataModel, ParseError};
use crate::writer::record_output_obj;

verus! {

/// Round trip: a record parsed from a storage-name document and then
/// encoded as an output-name object is recovered field for field when
/// that object is read back with the output names — the required fields
/// as required, the optional ones with absence preserved. The one
/// deliberately asymmetric field, `difficulties_location`, is read-side
/// only: the encoded object has no entry for it at all. Absence of the
/// artist also survives as absence of the key, not as a null or empty
/// entry.
pub proof fn lemma_parse_encode_round_trip(doc: JsonValue, v: JsonValue, m: MapDataModel)
    requires
        spec_parse_record(doc) == Ok::<MapDataModel, ParseError>(m),
        record_output_obj(v, m),
    ensures
        req_str(v->Obj_0@, "title"@) == Some(m.title),
        req_int(v->Obj_0@, "version"@) == Some(m.version),
        opt_str(v->Obj_0@, "artist"@) == Ok::<Option<Seq<char>>, ()>(m.artist),
        str_or_empty(v->Obj_0@, "music"@) == Ok::<Seq<char>, ()>(m.music),
        str_arr_or_empty(v->Obj_0@, "mappers"@) == Ok::<Seq<Seq<char>>, ()>(m.mappers),
        m.artist is None ==> spec_lookup(v->Obj_0@, "artist"@) is None,
        spec_lookup(v->Obj_0@, "difficulties"@) is None,
{
    reveal_strlit("artist");
    reveal_strlit("mappers");
    reveal_strlit("music");
    reveal_strlit("title");
    reveal_strlit("version");
    reveal_strlit("difficulties");
    assert("artist"@.len() == 6);
    assert("mappers"@.len() == 7);
    assert("music"@.len() == 5);
    assert("title"@.len() == 5);
    assert("version"@.len() == 7);
    assert("difficulties"@.len() == 12);
    assert("music"@[0] == 'm');
    assert("title"@[0] == 't');
    assert("mappers"@[0] == 'm');
    assert("version"@[0] == 'v');
    assert("artist"@ != "mappers"@);
    assert("artist"@ != "music"@);
    assert("artist"@ != "title"@);
    assert("artist"@ != "version"@);
    assert("artist"@ != "difficulties"@);
    assert("mappers"@ != "music"@);
    assert("mappers"@ != "title"@);
    assert("mappers"@ != "version"@);
    assert("mappers"@ != "difficulties"@);
    assert("music"@ != "title"@);
    assert("music"@ != "version"@);
    assert("music"@ != "difficulties"@);
    assert("title"@ != "version"@);
    assert("title"@ != "difficulties"@);
    assert("version"@ != "difficulties"@);
    let e = v->Obj_0@;
    match m.artist {
        Some(_) => {
            lemma_lookup_index(e, "artist"@, 0);
            lemma_lookup_index(e, "mappers"@, 1);
            lemma_lookup_index(e, "music"@, 2);
            lemma_lookup_index(e, "title"@, 3);
            lemma_lookup_index(e, "version"@, 4);
            lemma_lookup_absent(e, "difficulties"@);
        },
        None => {
            lemma_lookup_absent(e, "artist"@);
            lemma_lookup_index(e, "mappers"@, 0);
            lemma_lookup_index(e, "music"@, 1);
            lemma_lookup_index(e, "title"@, 2);
            lemma_lookup_index(e, "version"@, 3);
            lemma_lookup_absent(e, "difficulties"@);
        },
    }
}

} // verus!
