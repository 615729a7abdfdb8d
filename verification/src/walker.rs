//! Discovery of filesystem entries under a root directory.

use vstd::prelude::*;

verus! {

/// One filesystem object found under the root: its full path, its base
/// name, and whether it is a regular file.
pub struct DiscoveredEntry {
    pub path: String,
    pub file_name: String,
    pub is_file: bool,
}

/// Relies on walkdir's `WalkDir`: walks the tree under `root` recursively,
/// following symbolic links (walkdir detects link loops and reports them as
/// errors instead of descending forever), and yields one entry per object
/// it can read. Entries that error — unreadable directories, broken links,
/// a root that does not exist — are skipped, so such a root yields no
/// entries at all. What comes back depends on the state of the disk, so
/// nothing is promised of it; callers state what holds of every outcome.
#[verifier::external_body]
pub(crate) fn walk_entries(root: &str) -> (entries: Vec<DiscoveredEntry>) {
    walkdir::WalkDir::new(root)
        .follow_links(true)
        .into_iter()
        .filter_map(|entry| entry.ok())
        .map(|entry| DiscoveredEntry {
            path: entry.path().to_string_lossy().into_owned(),
            file_name: entry.file_name().to_string_lossy().into_owned(),
            is_file: entry.file_type().is_file(),
        })
        .collect()
}

} // verus!
