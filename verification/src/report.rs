use vstd::prelude::*;

use crate::parse::{get_data_from_meta, spec_data_from_meta};
use crate::records::{error_text, MapData, MapDataModel, ParseError};

verus! {

/// One candidate directory as the scanner hands it over: its path, for
/// diagnostics, and the bytes of its metadata file, or `None` when that
/// file could not be read. Reading the directory tree itself is the
/// caller's work.
#[derive(Debug, Clone)]
pub struct ScanItem {
    pub path: String,
    pub contents: Option<Vec<u8>>,
}

/// What one scanned item yields: a record, or the failure to report.
pub open spec fn item_outcome(it: ScanItem) -> Result<MapDataModel, ParseError> {
    spec_data_from_meta(it.contents)
}

/// How many of the items parse successfully.
pub open spec fn spec_success_count(items: Seq<ScanItem>) -> int
    decreases items.len(),
{
    if items.len() == 0 {
        0
    } else {
        spec_success_count(items.drop_last()) + (if item_outcome(items.last()) is Ok {
            1int
        } else {
            0int
        })
    }
}

/// The report: the records of the successfully parsed items, in scan order.
pub open spec fn spec_report(items: Seq<ScanItem>) -> Seq<MapDataModel>
    decreases items.len(),
{
    if items.len() == 0 {
        Seq::<MapDataModel>::empty()
    } else {
        let rest = spec_report(items.drop_last());
        match item_outcome(items.last()) {
            Ok(m) => rest.push(m),
            Err(_) => rest,
        }
    }
}

/// The diagnostic line a skipped item is reported with.
pub open spec fn spec_diag(path: Seq<char>, e: ParseError) -> Seq<char> {
    "Failed to add "@ + path + " | Reasoning : "@ + error_text(e)
}

/// The diagnostics: one line per failed item, in scan order.
pub open spec fn spec_diags(items: Seq<ScanItem>) -> Seq<Seq<char>>
    decreases items.len(),
{
    if items.len() == 0 {
        Seq::<Seq<char>>::empty()
    } else {
        let rest = spec_diags(items.drop_last());
        match item_outcome(items.last()) {
            Ok(_) => rest,
            Err(e) => rest.push(spec_diag(items.last().path@, e)),
        }
    }
}

/// The models of a sequence of records, element for element.
pub open spec fn models_of(v: Seq<MapData>) -> Seq<MapDataModel> {
    v.map_values(|rec: MapData| rec@)
}

/// Parses one item's metadata and appends the record to the report;
/// on failure the report is left untouched and the cause is returned.
pub fn add_to_list(list: &mut Vec<MapData>, contents: &Option<Vec<u8>>) -> (r: Result<
    (),
    ParseError,
>)
    ensures
        r matches Ok(_) ==> ({
            &&& spec_data_from_meta(*contents) matches Ok(m)
            &&& final(list)@.len() == old(list)@.len() + 1
            &&& final(list)@.drop_last() == old(list)@
            &&& final(list)@.last()@ == m
        }),
        r matches Err(e) ==> final(list)@ == old(list)@ && spec_data_from_meta(*contents)
            == Err::<MapDataModel, ParseError>(e),
{
    let rec = match get_data_from_meta(contents) {
        Ok(rec) => rec,
        Err(e) => {
            return Err(e);
        },
    };
    list.push(rec);
    proof {
        assert(list@.drop_last() =~= old(list)@);
    }
    Ok(())
}

/// Builds the diagnostic line for one skipped item.
pub fn diag_line(path: &String, e: ParseError) -> (r: String)
    ensures
        r@ == spec_diag(path@, e),
{
    let mut s: String = "Failed to add ".to_owned();
    s.append(path.as_str());
    s.append(" | Reasoning : ");
    let msg = e.message();
    s.append(msg.as_str());
    s
}

/// Drives the parser over every scanned item and builds the report and
/// the diagnostics. A failed item is skipped and reported; it never stops
/// the run: every item is visited, whatever the earlier outcomes.
pub fn aggregate(items: &Vec<ScanItem>) -> (r: (Vec<MapData>, Vec<String>))
    ensures
        models_of(r.0@) == spec_report(items@),
        r.1.deep_view() == spec_diags(items@),
        r.0@.len() == spec_success_count(items@),
        r.0@.len() + r.1@.len() == items@.len(),
{
    let mut report: Vec<MapData> = Vec::new();
    let mut diags: Vec<String> = Vec::new();
    let mut i: usize = 0;
    proof {
        assert(items@.take(0) =~= Seq::<ScanItem>::empty());
        assert(models_of(report@) =~= spec_report(items@.take(0)));
        assert(diags.deep_view() =~= spec_diags(items@.take(0)));
    }
    while i < items.len()
        invariant
            0 <= i <= items@.len(),
            models_of(report@) =~= spec_report(items@.take(i as int)),
            diags.deep_view() =~= spec_diags(items@.take(i as int)),
            report@.len() == spec_success_count(items@.take(i as int)),
            report@.len() + diags@.len() == i,
        decreases items@.len() - i,
    {
        let it = &items[i];
        proof {
            assert(items@.take(i + 1).drop_last() =~= items@.take(i as int));
            assert(items@.take(i + 1).last() == items@[i as int]);
        }
        match add_to_list(&mut report, &it.contents) {
            Ok(_) => {
                proof {
                    assert(models_of(report@) =~= spec_report(items@.take(i + 1)));
                    assert(diags.deep_view() =~= spec_diags(items@.take(i + 1)));
                }
            },
            Err(e) => {
                let line = diag_line(&it.path, e);
                diags.push(line);
                proof {
                    assert(models_of(report@) =~= spec_report(items@.take(i + 1)));
                    assert(diags.deep_view() =~= spec_diags(items@.take(i + 1)));
                }
            },
        }
        i += 1;
    }
    proof {
        assert(items@.take(items@.len() as int) =~= items@);
    }
    (report, diags)
}

/// The report holds exactly one record per successfully parsed item, and
/// exactly one diagnostic per failed one: successes and failures together
/// account for every scanned item, and a failure never shortens the rest
/// of the run.
pub proof fn lemma_report_accounts_for_every_item(items: Seq<ScanItem>)
    ensures
        spec_report(items).len() == spec_success_count(items),
        spec_diags(items).len() == items.len() - spec_success_count(items),
        0 <= spec_success_count(items) <= items.len(),
    decreases items.len(),
{
    if items.len() > 0 {
        lemma_report_accounts_for_every_item(items.drop_last());
    }
}

} // verus!
