//! Planning the copies of one run.
//!
//! The dispatcher filters the discovered entries through the extension
//! filter and derives, for each match, the flat destination path: the
//! output directory joined with the entry's base name. Directory structure
//! is discarded, so two sources that share a base name are planned onto
//! the same destination and the later copy wins.

use vstd::prelude::*;
use vstd::string::StringExecFns;
use crate::extensions::spec_has_valid_extension;
use crate::extensions::has_valid_extension;
use crate::walker::DiscoveredEntry;

verus! {

/// One planned copy: from a discovered source file to its place in the
/// flat output directory.
pub struct CopyJob {
    pub source: String,
    pub dest: String,
}

/// Whether a discovered entry belongs to the run: it is a regular file
/// and its base name carries an extension of the active set. A directory
/// never matches, whatever its name.
pub open spec fn spec_entry_matches(e: DiscoveredEntry, exts: Seq<Seq<char>>) -> bool {
    e.is_file && spec_has_valid_extension(e.file_name@, exts)
}

/// The filter of one run, as a predicate on entries.
pub open spec fn spec_match_pred(exts: Seq<Seq<char>>) -> spec_fn(DiscoveredEntry) -> bool {
    |e: DiscoveredEntry| spec_entry_matches(e, exts)
}

/// The entries of `entries` that belong to the run, in discovery order.
pub open spec fn spec_matching_entries(
    entries: Seq<DiscoveredEntry>,
    exts: Seq<Seq<char>>,
) -> Seq<DiscoveredEntry> {
    entries.filter(spec_match_pred(exts))
}

/// The destination of one match: the output directory, a separator, and
/// the source's base name.
pub open spec fn spec_dest_path(output_dir: Seq<char>, file_name: Seq<char>) -> Seq<char> {
    output_dir + "/"@ + file_name
}

/// Whether `jobs` is the plan for `entries`: one job per matching entry,
/// in order, copying the entry's path onto the joined destination.
pub open spec fn jobs_match_plan(
    jobs: Seq<CopyJob>,
    entries: Seq<DiscoveredEntry>,
    exts: Seq<Seq<char>>,
    output_dir: Seq<char>,
) -> bool {
    let m = spec_matching_entries(entries, exts);
    &&& jobs.len() == m.len()
    &&& forall|i: int|
        0 <= i < m.len() ==> #[trigger] jobs[i].source@ == m[i].path@
    &&& forall|i: int|
        0 <= i < m.len() ==> #[trigger] jobs[i].dest@ == spec_dest_path(
            output_dir,
            m[i].file_name@,
        )
}

/// Whether the entry is a regular file whose base name carries an
/// extension of the active set.
pub fn entry_matches(e: &DiscoveredEntry, extensions: &Vec<String>) -> (r: bool)
    ensures
        r == spec_entry_matches(*e, extensions.deep_view()),
{
    e.is_file && has_valid_extension(e.file_name.as_str(), extensions)
}

/// Joins the output directory with a base name.
pub fn dest_path(output_dir: &str, file_name: &str) -> (r: String)
    ensures
        r@ == spec_dest_path(output_dir@, file_name@),
{
    let mut r = String::from_str(output_dir);
    r.append("/");
    r.append(file_name);
    r
}

/// Plans the copies of one run: one job per matching entry, onto the flat
/// output directory, in discovery order.
pub fn plan_copies(
    entries: &Vec<DiscoveredEntry>,
    extensions: &Vec<String>,
    output_dir: &str,
) -> (jobs: Vec<CopyJob>)
    ensures
        jobs_match_plan(jobs@, entries@, extensions.deep_view(), output_dir@),
{
    broadcast use vstd::prelude::Seq::lemma_filter_push;

    let mut jobs: Vec<CopyJob> = Vec::new();
    proof {
        reveal(Seq::filter);
        assert(spec_matching_entries(entries@.take(0), extensions.deep_view())
            =~= Seq::empty());
    }
    let mut k: usize = 0;
    while k < entries.len()
        invariant
            k <= entries@.len(),
            jobs_match_plan(
                jobs@,
                entries@.take(k as int),
                extensions.deep_view(),
                output_dir@,
            ),
        decreases entries@.len() - k,
    {
        let e = &entries[k];
        if entry_matches(e, extensions) {
            let job = CopyJob {
                source: e.path.clone(),
                dest: dest_path(output_dir, e.file_name.as_str()),
            };
            jobs.push(job);
        }
        proof {
            assert(entries@.take(k + 1) =~= entries@.take(k as int).push(entries@[k as int]));
            entries@.take(k as int).lemma_filter_push(
                entries@[k as int],
                spec_match_pred(extensions.deep_view()),
            );
        }
        k = k + 1;
    }
    proof {
        assert(entries@.take(entries@.len() as int) =~= entries@);
    }
    jobs
}

/// No entries, no plan: an empty discovery matches nothing, so a run over
/// it has nothing to copy and nothing to count.
pub proof fn lemma_empty_discovery_plans_nothing(exts: Seq<Seq<char>>)
    ensures
        spec_matching_entries(Seq::empty(), exts).len() == 0,
{
    reveal(Seq::filter);
    assert(spec_matching_entries(Seq::empty(), exts) =~= Seq::empty());
}

/// Sources that share a base name are planned onto the same destination:
/// the output is flat, so of several matching files named alike exactly
/// one file exists there afterwards — the last writer's.
pub proof fn lemma_shared_name_shared_destination(
    jobs: Seq<CopyJob>,
    entries: Seq<DiscoveredEntry>,
    exts: Seq<Seq<char>>,
    output_dir: Seq<char>,
    i: int,
    j: int,
)
    requires
        jobs_match_plan(jobs, entries, exts, output_dir),
        0 <= i < jobs.len(),
        0 <= j < jobs.len(),
        spec_matching_entries(entries, exts)[i].file_name@ == spec_matching_entries(
            entries,
            exts,
        )[j].file_name@,
    ensures
        jobs[i].dest@ == jobs[j].dest@,
{
}

} // verus!
