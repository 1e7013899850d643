//! Where the client looks for its configuration and its state file.
use vstd::prelude::*;

verus! {

/// Name of the configuration file.
pub const CONFIG_FILE_NAME: &'static str = "exam_config.json";
/// Name of the state file.
pub const STATE_FILE_NAME: &'static str = ".exam_state";
/// Subdirectory of the working directory searched last (the development layout).
pub const SRC_TAURI_DIR: &'static str = "src-tauri";

/// A directory the client searches, in the order it searches them.
#[derive(Clone, Copy, Debug, PartialEq, Eq)]
pub enum SearchDir {
    /// The current working directory.
    WorkingDir,
    /// The directory of the executable.
    ExeDir,
    /// The parent of the executable's directory.
    ExeParentDir,
    /// `src-tauri` under the working directory.
    WorkingDirSrcTauri,
}

/// The search order.
pub open spec fn spec_search_order() -> Seq<SearchDir> {
    seq![SearchDir::WorkingDir, SearchDir::ExeDir, SearchDir::ExeParentDir, SearchDir::WorkingDirSrcTauri]
}

/// The directories searched, in order.
pub fn search_order() -> (r: Vec<SearchDir>)
    ensures
        r@ == spec_search_order(),
{
    let r = vec![SearchDir::WorkingDir, SearchDir::ExeDir, SearchDir::ExeParentDir, SearchDir::WorkingDirSrcTauri];
    assert(r@ =~= spec_search_order());
    r
}

/// The first candidate that was found: each probe is `None` when the
/// directory could not be determined, else whether the file (or, for the
/// state file, its directory) exists there. `None` when no probe found one.
pub fn first_found(probes: &Vec<Option<bool>>) -> (r: Option<usize>)
    ensures
        match r {
            Some(i) => i < probes@.len() && probes@[i as int] == Some(true)
                && forall|j: int| 0 <= j < i ==> probes@[j] != Some(true),
            None => forall|j: int| 0 <= j < probes@.len() ==> probes@[j] != Some(true),
        },
{
    let mut i: usize = 0;
    while i < probes.len()
        invariant
            i <= probes@.len(),
            forall|j: int| 0 <= j < i ==> probes@[j] != Some(true),
        decreases probes@.len() - i,
    {
        match probes[i] {
            Some(true) => {
                return Some(i);
            },
            _ => {},
        }
        i = i + 1;
    }
    None
}

} // verus!
