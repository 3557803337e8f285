use vstd::prelude::*;

use crate::strutil::string_eq_str;
use core::str::FromStr;

verus! {

/// How a run gathers its items: a full directory scan, a single item, or
/// a remote fetch. Only the full scan is implemented by the pipeline; the
/// other two are selection surface handed through to the caller.
#[derive(Debug, Clone, Copy, PartialEq, Eq, Structural)]
pub enum AppModes {
    Default,
    Single,
    Online,
}

/// Which format the report is written in.
#[derive(Debug, Clone, Copy, PartialEq, Eq, Structural)]
pub enum OutputModes {
    Json,
    Csv,
}

/// The gathering mode each name selects.
pub open spec fn spec_app_mode(s: Seq<char>) -> Option<AppModes> {
    if s == "default"@ {
        Some(AppModes::Default)
    } else if s == "single"@ {
        Some(AppModes::Single)
    } else if s == "online"@ {
        Some(AppModes::Online)
    } else {
        None
    }
}

/// The output format each name selects.
pub open spec fn spec_output_mode(s: Seq<char>) -> Option<OutputModes> {
    if s == "csv"@ {
        Some(OutputModes::Csv)
    } else if s == "json"@ {
        Some(OutputModes::Json)
    } else {
        None
    }
}

/// The message a rejected mode name is answered with.
pub open spec fn spec_unknown_mode_msg(s: Seq<char>) -> Seq<char> {
    "Unknown mode: "@ + s
}

fn unknown_mode_msg(s: &str) -> (r: String)
    ensures
        r@ == spec_unknown_mode_msg(s@),
{
    let mut msg: String = "Unknown mode: ".to_owned();
    msg.append(s);
    msg
}

impl AppModes {
    /// Reads a gathering-mode name; any name but the three known ones is
    /// rejected with a message naming it.
    pub fn parse_mode(s: &str) -> (r: Result<AppModes, String>)
        ensures
            r matches Ok(m) ==> spec_app_mode(s@) == Some(m),
            r is Err <==> spec_app_mode(s@) is None,
            r matches Err(e) ==> e@ == spec_unknown_mode_msg(s@),
    {
        let key = s.to_owned();
        if string_eq_str(&key, "default") {
            Ok(AppModes::Default)
        } else if string_eq_str(&key, "single") {
            Ok(AppModes::Single)
        } else if string_eq_str(&key, "online") {
            Ok(AppModes::Online)
        } else {
            Err(unknown_mode_msg(s))
        }
    }
}

impl OutputModes {
    /// Reads an output-format name; any name but the two known ones is
    /// rejected with a message naming it.
    pub fn parse_mode(s: &str) -> (r: Result<OutputModes, String>)
        ensures
            r matches Ok(m) ==> spec_output_mode(s@) == Some(m),
            r is Err <==> spec_output_mode(s@) is None,
            r matches Err(e) ==> e@ == spec_unknown_mode_msg(s@),
    {
        let key = s.to_owned();
        if string_eq_str(&key, "csv") {
            Ok(OutputModes::Csv)
        } else if string_eq_str(&key, "json") {
            Ok(OutputModes::Json)
        } else {
            Err(unknown_mode_msg(s))
        }
    }
}

impl FromStr for AppModes {
    type Err = String;

    fn from_str(s: &str) -> Result<Self, Self::Err> {
        AppModes::parse_mode(s)
    }
}

impl FromStr for OutputModes {
    type Err = String;

    fn from_str(s: &str) -> Result<Self, Self::Err> {
        OutputModes::parse_mode(s)
    }
}

} // verus!
