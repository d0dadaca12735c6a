//! The per-job stage machine: one job walks its packages in order —
//! download, then extraction, package by package — then merges, and ends in
//! exactly one terminal state. Any stage's failure moves the job straight to
//! Error and nothing runs after a terminal state.
//!
//! The stages' work (network, disk, the external toolchain) happens outside:
//! the caller performs the current stage and feeds the outcome back in.

use vstd::prelude::*;
use crate::api_types::ProgressEvent;

verus! {

/// Where a job stands.
#[derive(Debug, Clone, Copy, PartialEq, Eq, Structural)]
pub enum JobStage {
    /// Package `index` is being downloaded.
    Downloading { index: usize },
    /// Package `index` is being extracted.
    Extracting { index: usize },
    /// The merge of all extracted rasters is running.
    Merging,
    /// The job finished; its output file exists.
    Complete,
    /// The job failed; no further stage runs.
    Error,
}

impl JobStage {
    /// A stage nothing follows.
    pub open spec fn is_terminal(self) -> bool {
        self is Complete || self is Error
    }
}

/// The stage a job starts in: the first package's download, or the merge
/// right away when there are no packages (which the merge then rejects).
pub open spec fn spec_start_stage(n_packages: int) -> JobStage {
    if n_packages > 0 {
        JobStage::Downloading { index: 0 }
    } else {
        JobStage::Merging
    }
}

/// The stage after a successful step: a download's extraction, the next
/// package's download, the merge after the last package, completion after
/// the merge. Terminal stages stay.
pub open spec fn spec_next_ok(n_packages: int, stage: JobStage) -> JobStage {
    match stage {
        JobStage::Downloading { index } => JobStage::Extracting { index },
        JobStage::Extracting { index } => {
            if index + 1 < n_packages {
                JobStage::Downloading { index: (index + 1) as usize }
            } else {
                JobStage::Merging
            }
        },
        JobStage::Merging => JobStage::Complete,
        JobStage::Complete => JobStage::Complete,
        JobStage::Error => JobStage::Error,
    }
}

/// The stage after one step with the given outcome: failure is always Error.
pub open spec fn spec_advance(n_packages: int, stage: JobStage, ok: bool) -> JobStage {
    if ok {
        spec_next_ok(n_packages, stage)
    } else {
        JobStage::Error
    }
}

/// The stage a run of outcomes reaches; a terminal stage ends the run.
pub open spec fn spec_run(n_packages: int, stage: JobStage, oks: Seq<bool>) -> JobStage
    decreases oks.len(),
{
    if oks.len() == 0 || stage.is_terminal() {
        stage
    } else {
        spec_run(n_packages, spec_advance(n_packages, stage, oks[0]), oks.drop_first())
    }
}

/// One job's stage machine.
pub struct JobMachine {
    pub n_packages: usize,
    pub stage: JobStage,
}

impl JobMachine {
    /// The package index of a non-terminal stage stays in range.
    pub open spec fn wf(&self) -> bool {
        match self.stage {
            JobStage::Downloading { index } => index < self.n_packages,
            JobStage::Extracting { index } => index < self.n_packages,
            _ => true,
        }
    }

    /// Starts a job over its packages.
    pub fn start(n_packages: usize) -> (r: JobMachine)
        ensures
            r.n_packages == n_packages,
            r.stage == spec_start_stage(n_packages as int),
            r.wf(),
            !r.stage.is_terminal(),
    {
        let stage = if n_packages > 0 {
            JobStage::Downloading { index: 0 }
        } else {
            JobStage::Merging
        };
        JobMachine { n_packages, stage }
    }

    /// Feeds one stage's outcome in. A failure moves the job to Error and
    /// yields the Error event carrying the failure's message; success moves
    /// to the next stage, yielding the job's single Complete event when that
    /// next stage is completion.
    pub fn on_stage_result(&mut self, outcome: Result<(), String>) -> (r: Option<ProgressEvent>)
        requires
            !old(self).stage.is_terminal(),
            old(self).wf(),
        ensures
            final(self).n_packages == old(self).n_packages,
            final(self).wf(),
            match outcome {
                Ok(u) => {
                    &&& final(self).stage == spec_advance(
                        old(self).n_packages as int,
                        old(self).stage,
                        true,
                    )
                    &&& match r {
                        Some(ev) => final(self).stage is Complete && (ev matches
                            ProgressEvent::Complete { output_filename } && output_filename@
                            == "dtm_output.tif"@),
                        None => !(final(self).stage is Complete),
                    }
                },
                Err(m) => {
                    &&& final(self).stage == spec_advance(
                        old(self).n_packages as int,
                        old(self).stage,
                        false,
                    )
                    &&& (r matches Some(ev) && (ev matches ProgressEvent::Error { message }
                        && message == m))
                },
            },
    {
        match outcome {
            Ok(()) => {
                let next = match self.stage {
                    JobStage::Downloading { index } => JobStage::Extracting { index },
                    JobStage::Extracting { index } => {
                        if index + 1 < self.n_packages {
                            JobStage::Downloading { index: index + 1 }
                        } else {
                            JobStage::Merging
                        }
                    },
                    JobStage::Merging => JobStage::Complete,
                    JobStage::Complete => JobStage::Complete,
                    JobStage::Error => JobStage::Error,
                };
                self.stage = next;
                match self.stage {
                    JobStage::Complete => Some(
                        ProgressEvent::Complete { output_filename: "dtm_output.tif".to_owned() },
                    ),
                    _ => None,
                }
            },
            Err(m) => {
                self.stage = JobStage::Error;
                Some(ProgressEvent::Error { message: m })
            },
        }
    }
}

/// Law: a job whose stages all succeed ends Complete. From package `index`'s
/// download, the remaining `2 * (n - index) + 1` successful steps (each
/// package's download and extraction, then the merge) reach Complete.
pub proof fn lemma_all_success_from_download(n_packages: int, index: int, oks: Seq<bool>)
    requires
        0 <= index < n_packages <= usize::MAX,
        oks.len() == 2 * (n_packages - index) + 1,
        forall|i: int| 0 <= i < oks.len() ==> oks[i],
    ensures
        spec_run(n_packages, JobStage::Downloading { index: index as usize }, oks) is Complete,
    decreases n_packages - index,
{
    let after_download = oks.drop_first();
    let after_extract = after_download.drop_first();
    assert(oks[0] && after_download[0] == oks[1] && oks[1]);
    assert(forall|i: int| 0 <= i < after_extract.len() ==> #[trigger] after_extract[i] == oks[i + 2]);
    assert(spec_run(n_packages, JobStage::Downloading { index: index as usize }, oks) == spec_run(
        n_packages,
        JobStage::Extracting { index: index as usize },
        after_download,
    ));
    assert(spec_run(n_packages, JobStage::Extracting { index: index as usize }, after_download)
        == spec_run(
        n_packages,
        spec_next_ok(n_packages, JobStage::Extracting { index: index as usize }),
        after_extract,
    ));
    if index + 1 < n_packages {
        assert(spec_next_ok(n_packages, JobStage::Extracting { index: index as usize })
            == JobStage::Downloading { index: (index + 1) as usize });
        lemma_all_success_from_download(n_packages, index + 1, after_extract);
    } else {
        assert(after_extract.len() == 1 && after_extract[0]);
        assert(spec_run(n_packages, JobStage::Merging, after_extract) == spec_run(
            n_packages,
            JobStage::Complete,
            after_extract.drop_first(),
        ));
    }
}

/// Law: a job with at least one package whose downloads, extractions and
/// merge all succeed ends Complete.
pub proof fn lemma_all_success_run_completes(n_packages: int, oks: Seq<bool>)
    requires
        0 < n_packages <= usize::MAX,
        oks.len() == 2 * n_packages + 1,
        forall|i: int| 0 <= i < oks.len() ==> oks[i],
    ensures
        spec_run(n_packages, spec_start_stage(n_packages), oks) is Complete,
{
    lemma_all_success_from_download(n_packages, 0, oks);
}

/// Law: any failing stage moves the job straight to Error, and from Error no
/// run of further outcomes leads anywhere else — in particular never to
/// Complete.
pub proof fn lemma_failure_is_final(n_packages: int, stage: JobStage, oks: Seq<bool>)
    requires
        !stage.is_terminal(),
    ensures
        spec_advance(n_packages, stage, false) is Error,
        spec_run(n_packages, JobStage::Error, oks) is Error,
{
}

} // verus!
