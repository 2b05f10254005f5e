//! Where the shell keeps the lines that were typed before.

use vstd::prelude::*;
use crate::text::join3;

verus! {

/// The history file: whether the shell can use it, and where it is.
#[derive(Debug, PartialEq)]
pub struct OxideHistory {
    pub exists: bool,
    pub path: String,
}

/// What was found where the history file should be.
#[derive(Debug, PartialEq)]
pub enum HistoryFinding {
    /// The system names no folder for configuration files.
    NoConfigFolder,
    /// The file is there.
    Found,
    /// The file was not there and has been created.
    Created,
    /// The file was not there and could not be created.
    CreationFailed { reason: String },
}

/// The names below the configuration folder that lead to the history file:
/// the shell's own folder, then the file.
pub open spec fn history_path_parts() -> Seq<Seq<char>> {
    seq!["oxide"@, "history.txt"@]
}

/// What the shell says when it has to do without its history.
pub open spec fn history_warning(finding: HistoryFinding) -> Option<Seq<char>> {
    match finding {
        HistoryFinding::NoConfigFolder => Some(
            "Could not find configuration folder. Oxide will have reduced functionality."@,
        ),
        HistoryFinding::CreationFailed { reason } => Some(
            "Could not create oxide configuration file due to error: "@ + reason@
                + "\n                                 Oxide will have reduced functionality."@,
        ),
        _ => None,
    }
}

impl OxideHistory {
    /// The history to work with, from where the file should be and what was
    /// found there. It can be used if the file was there or was created.
    /// Without a configuration folder there is no path to speak of.
    pub fn new(path: String, finding: &HistoryFinding) -> (res: OxideHistory)
        ensures
            res.exists == (finding is Found || finding is Created),
            res.path@ == if finding is NoConfigFolder {
                Seq::<char>::empty()
            } else {
                path@
            },
    {
        match finding {
            HistoryFinding::NoConfigFolder => OxideHistory { exists: false, path: String::new() },
            HistoryFinding::Found => OxideHistory { exists: true, path },
            HistoryFinding::Created => OxideHistory { exists: true, path },
            HistoryFinding::CreationFailed { .. } => OxideHistory { exists: false, path },
        }
    }

    /// The names below the configuration folder that lead to the history
    /// file.
    pub fn path_parts() -> (res: Vec<&'static str>)
        ensures
            res.deep_view() == history_path_parts(),
    {
        let mut res: Vec<&'static str> = Vec::new();
        res.push("oxide");
        res.push("history.txt");
        assert(res.deep_view() =~= history_path_parts());
        res
    }

    /// The warning to print for `finding`, if it calls for one.
    pub fn warning(finding: &HistoryFinding) -> (res: Option<String>)
        ensures
            match res {
                Some(text) => history_warning(*finding) == Some(text@),
                None => history_warning(*finding) is None,
            },
    {
        match finding {
            HistoryFinding::NoConfigFolder => Some(
                "Could not find configuration folder. Oxide will have reduced functionality.".to_owned(),
            ),
            HistoryFinding::CreationFailed { reason } => Some(
                join3(
                    "Could not create oxide configuration file due to error: ",
                    reason.as_str(),
                    "\n                                 Oxide will have reduced functionality.",
                ),
            ),
            _ => None,
        }
    }
}

} // verus!
