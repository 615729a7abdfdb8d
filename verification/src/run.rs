//! The orchestrator of one gathering run.
//!
//! A run moves through four phases: it is idle, it waits for the caller to
//! try to create the output directory, it scans and copies, and it is
//! complete. The controller owns the run's state — the request, the active
//! extension set, the planned copies and the progress counter — and each
//! transition carries its contract. The caller drives the outside work:
//! creating the output directory, performing the planned copies (in any
//! order, spread over any number of workers), and feeding each outcome
//! back through `record_copy_result`.

use vstd::prelude::*;
use vstd::string::StringExecFns;
use crate::counter::ProgressCounter;
use crate::dispatch::CopyJob;
use crate::dispatch::jobs_match_plan;
use crate::dispatch::plan_copies;
use crate::extensions::CategorySelection;
use crate::extensions::get_avaliable_extentions;
use crate::extensions::spec_active_extensions;
use crate::walker::DiscoveredEntry;
use crate::walker::walk_entries;

verus! {

/// What one user-initiated search asks for.
pub struct SearchRequest {
    pub root_path: String,
    pub output_path: String,
    pub categories: CategorySelection,
}

/// Where a run stands.
#[derive(Clone, Copy, PartialEq, Eq, Structural)]
pub enum RunPhase {
    Idle,
    EnsuringOutputDir,
    Running,
    Complete,
}

/// The state of one run.
pub struct RunController {
    phase: RunPhase,
    request: SearchRequest,
    extensions: Vec<String>,
    jobs: Vec<CopyJob>,
    processed: usize,
    failed: usize,
    counter: ProgressCounter,
}

/// The fixed status line shown while a run works.
pub open spec fn spec_started_message() -> Seq<char> {
    "Processing files... This may take a few moments depending on the number of files in the directory. Please wait."@
}

/// The fixed status line shown when a run has finished.
pub open spec fn spec_completed_message() -> Seq<char> {
    "File processing is complete. Click anywhere to close this message and continue."@
}

/// The status line for a run that has started.
pub fn started_message() -> (m: String)
    ensures
        m@ == spec_started_message(),
{
    String::from_str(
        "Processing files... This may take a few moments depending on the number of files in the directory. Please wait.",
    )
}

/// The status line for a run that has finished.
pub fn completed_message() -> (m: String)
    ensures
        m@ == spec_completed_message(),
{
    String::from_str(
        "File processing is complete. Click anywhere to close this message and continue.",
    )
}

impl RunController {
    /// The phase the run is in.
    pub closed spec fn spec_phase(self) -> RunPhase {
        self.phase
    }

    /// The request the run serves.
    pub closed spec fn spec_request(self) -> SearchRequest {
        self.request
    }

    /// The active extension set of the run.
    pub closed spec fn spec_extensions(self) -> Seq<Seq<char>> {
        self.extensions.deep_view()
    }

    /// The planned copies of the run.
    pub closed spec fn spec_jobs(self) -> Seq<CopyJob> {
        self.jobs@
    }

    /// How many planned copies have been recorded, copied or failed.
    pub closed spec fn spec_processed(self) -> usize {
        self.processed
    }

    /// How many recorded copies failed.
    pub closed spec fn spec_failed(self) -> usize {
        self.failed
    }

    /// How many recorded copies succeeded: the progress counter's value.
    pub closed spec fn spec_copied(self) -> usize {
        self.counter.spec_value()
    }

    /// The run's invariant: every recorded copy either succeeded or
    /// failed, no more copies are recorded than were planned, and the
    /// phase agrees with the record — outside the scanning phase nothing
    /// is planned or recorded, and a complete run has recorded every
    /// planned copy.
    pub open spec fn wf(self) -> bool {
        &&& self.spec_copied() + self.spec_failed() == self.spec_processed()
        &&& self.spec_processed() <= self.spec_jobs().len()
        &&& match self.spec_phase() {
            RunPhase::Idle | RunPhase::EnsuringOutputDir => {
                self.spec_jobs().len() == 0 && self.spec_processed() == 0
            },
            RunPhase::Running => {
                self.spec_processed() < self.spec_jobs().len() || (self.spec_jobs().len() == 0
                    && self.spec_processed() == 0)
            },
            RunPhase::Complete => self.spec_processed() == self.spec_jobs().len(),
        }
    }

    /// The planned copies, for the caller to perform.
    pub fn jobs(&self) -> (r: &Vec<CopyJob>)
        ensures
            r@ == self.spec_jobs(),
    {
        &self.jobs
    }

    /// How many copies have succeeded so far.
    pub fn files_copied(&self) -> (n: usize)
        ensures
            n == self.spec_copied(),
    {
        self.counter.current_value()
    }

    /// How many copies have failed so far.
    pub fn files_failed(&self) -> (n: usize)
        ensures
            n == self.spec_failed(),
    {
        self.failed
    }

    /// Whether the run has processed every planned copy.
    pub fn is_complete(&self) -> (b: bool)
        ensures
            b == (self.spec_phase() is Complete),
    {
        match self.phase {
            RunPhase::Complete => true,
            _ => false,
        }
    }

    /// The caller has tried to create the output directory. Whether or
    /// not that worked, the run proceeds — a directory that is still
    /// missing surfaces later as failed copies. The active extension set
    /// is derived from the request's categories, the run enters its
    /// scanning phase, and the started status line is handed back for
    /// the caller to show.
    pub fn output_dir_ensured(&mut self) -> (msg: String)
        requires
            old(self).wf(),
            old(self).spec_phase() is EnsuringOutputDir,
        ensures
            final(self).wf(),
            final(self).spec_phase() is Running,
            final(self).spec_request() == old(self).spec_request(),
            final(self).spec_extensions() == spec_active_extensions(
                old(self).spec_request().categories,
            ),
            final(self).spec_jobs().len() == 0,
            final(self).spec_processed() == 0,
            final(self).spec_copied() == 0,
            final(self).spec_failed() == 0,
            msg@ == spec_started_message(),
    {
        self.extensions = get_avaliable_extentions(
            self.request.categories.images,
            self.request.categories.videos,
            self.request.categories.compressed_files,
            self.request.categories.sounds,
        );
        self.phase = RunPhase::Running;
        started_message()
    }

    /// The walker has yielded its entries: the run plans one copy per
    /// matching entry, onto the flat output directory. A discovery that
    /// matched nothing completes the run at once, with nothing copied
    /// and nothing failed.
    pub fn entries_discovered(&mut self, entries: &Vec<DiscoveredEntry>)
        requires
            old(self).wf(),
            old(self).spec_phase() is Running,
            old(self).spec_jobs().len() == 0,
            old(self).spec_processed() == 0,
        ensures
            final(self).wf(),
            final(self).spec_request() == old(self).spec_request(),
            final(self).spec_extensions() == old(self).spec_extensions(),
            final(self).spec_processed() == 0,
            final(self).spec_copied() == 0,
            final(self).spec_failed() == 0,
            jobs_match_plan(
                final(self).spec_jobs(),
                entries@,
                old(self).spec_extensions(),
                old(self).spec_request().output_path@,
            ),
            final(self).spec_phase() is Complete <==> final(self).spec_jobs().len() == 0,
            final(self).spec_phase() is Running <==> final(self).spec_jobs().len() > 0,
    {
        self.jobs = plan_copies(entries, &self.extensions, self.request.output_path.as_str());
        if self.jobs.len() == 0 {
            self.phase = RunPhase::Complete;
        }
    }

    /// Walks the tree under the request's root and plans the run from
    /// whatever the walk yielded: however the disk looked, the plan is
    /// the one the discovered entries call for, and a walk that yielded
    /// nothing — a missing or unreadable root among the causes — leaves
    /// a run that is already complete with its counter at zero.
    pub fn run_discovery(&mut self)
        requires
            old(self).wf(),
            old(self).spec_phase() is Running,
            old(self).spec_jobs().len() == 0,
            old(self).spec_processed() == 0,
        ensures
            final(self).wf(),
            final(self).spec_request() == old(self).spec_request(),
            final(self).spec_extensions() == old(self).spec_extensions(),
            final(self).spec_processed() == 0,
            final(self).spec_copied() == 0,
            final(self).spec_failed() == 0,
            exists|es: Seq<DiscoveredEntry>|
                jobs_match_plan(
                    final(self).spec_jobs(),
                    es,
                    old(self).spec_extensions(),
                    old(self).spec_request().output_path@,
                ),
            final(self).spec_phase() is Complete <==> final(self).spec_jobs().len() == 0,
            final(self).spec_phase() is Running <==> final(self).spec_jobs().len() > 0,
    {
        let entries = walk_entries(self.request.root_path.as_str());
        self.entries_discovered(&entries);
        proof {
            assert(jobs_match_plan(
                self.spec_jobs(),
                entries@,
                old(self).spec_extensions(),
                old(self).spec_request().output_path@,
            ));
        }
    }

    /// One planned copy has been carried out, well or badly, in whatever
    /// order the workers got to it. A success moves the progress counter,
    /// a failure moves the failure count, and either way the run is
    /// complete exactly when every planned copy has been recorded.
    pub fn record_copy_result(&mut self, success: bool)
        requires
            old(self).wf(),
            old(self).spec_phase() is Running,
            old(self).spec_processed() < old(self).spec_jobs().len(),
        ensures
            final(self).wf(),
            final(self).spec_request() == old(self).spec_request(),
            final(self).spec_extensions() == old(self).spec_extensions(),
            final(self).spec_jobs() == old(self).spec_jobs(),
            final(self).spec_processed() == old(self).spec_processed() + 1,
            final(self).spec_copied() == old(self).spec_copied() + (if success {
                1int
            } else {
                0int
            }),
            final(self).spec_failed() == old(self).spec_failed() + (if success {
                0int
            } else {
                1int
            }),
            final(self).spec_phase() is Complete <==> old(self).spec_processed() + 1 == old(
                self,
            ).spec_jobs().len(),
            final(self).spec_phase() is Running <==> old(self).spec_processed() + 1 < old(
                self,
            ).spec_jobs().len(),
    {
        let total = self.jobs.len();
        if success {
            self.counter.increment();
        } else {
            self.failed = self.failed + 1;
        }
        self.processed = self.processed + 1;
        if self.processed == total {
            self.phase = RunPhase::Complete;
        }
    }

    /// The caller dismisses the completion signal: the run hands back the
    /// output path — the target of the one-shot reveal action — and
    /// returns to idle, keeping nothing of the finished run.
    pub fn dismiss(&mut self) -> (path: String)
        requires
            old(self).wf(),
            old(self).spec_phase() is Complete,
        ensures
            final(self).wf(),
            final(self).spec_phase() is Idle,
            path@ == old(self).spec_request().output_path@,
    {
        let path = self.request.output_path.clone();
        self.jobs = Vec::new();
        self.extensions = Vec::new();
        self.processed = 0;
        self.failed = 0;
        self.counter = ProgressCounter::new();
        self.phase = RunPhase::Idle;
        path
    }
}

/// Prepares one run from a search request: the controller starts in the
/// phase in which the caller must try to create the output directory.
pub fn setup(request: SearchRequest) -> (c: RunController)
    ensures
        c.wf(),
        c.spec_phase() is EnsuringOutputDir,
        c.spec_request() == request,
        c.spec_jobs().len() == 0,
        c.spec_processed() == 0,
        c.spec_copied() == 0,
        c.spec_failed() == 0,
{
    RunController {
        phase: RunPhase::EnsuringOutputDir,
        request,
        extensions: Vec::new(),
        jobs: Vec::new(),
        processed: 0,
        failed: 0,
        counter: ProgressCounter::new(),
    }
}

/// At every point of a run the counter stays at or below the number of
/// planned copies: it counts successes among the discovered matches and
/// nothing else.
pub proof fn lemma_counter_bounded_by_plan(c: RunController)
    requires
        c.wf(),
    ensures
        c.spec_copied() <= c.spec_jobs().len(),
{
}

/// A completed run in which no copy failed has copied every planned file:
/// with N matching files discovered, the plan holds N jobs and the
/// counter stands at exactly N.
pub proof fn lemma_flawless_run_counts_all(c: RunController)
    requires
        c.wf(),
        c.spec_phase() is Complete,
        c.spec_failed() == 0,
    ensures
        c.spec_copied() == c.spec_jobs().len(),
{
}

} // verus!
