//! The decision a run makes before touching the file system: reject a
//! missing input, reject an unrecognized filename, skip an already
//! extracted package, or extract.

use vstd::prelude::*;
use crate::names::{is_recognized_name, recognized_name};

verus! {

/// What one run does, decided from the archive filename and the two
/// existence checks, in that order.
#[derive(Clone, Copy, Debug, PartialEq, Eq, Structural)]
pub enum RunAction {
    /// The input path does not exist: report it and stop, touching nothing.
    MissingInput,
    /// The filename carries no recognized suffix: report it and stop.
    UnsupportedName,
    /// The target directory already exists: report it and stop, writing
    /// nothing under it.
    AlreadyExtracted,
    /// Create the target directory and extract the archive into it.
    Extract,
}

/// Decide what a run does.  `input_exists` is whether the archive path
/// exists, `target_exists` whether `output/<base>` already does; the checks
/// apply in the fixed order: existence, suffix, prior extraction.
pub fn plan_run(file_name: &str, input_exists: bool, target_exists: bool) -> (r: RunAction)
    ensures
        !input_exists ==> r == RunAction::MissingInput,
        input_exists && !recognized_name(file_name@) ==> r == RunAction::UnsupportedName,
        input_exists && recognized_name(file_name@) && target_exists ==> r
            == RunAction::AlreadyExtracted,
        input_exists && recognized_name(file_name@) && !target_exists ==> r == RunAction::Extract,
{
    if !input_exists {
        RunAction::MissingInput
    } else if !is_recognized_name(file_name) {
        RunAction::UnsupportedName
    } else if target_exists {
        RunAction::AlreadyExtracted
    } else {
        RunAction::Extract
    }
}

} // verus!
