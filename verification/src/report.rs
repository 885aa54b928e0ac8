//! Decisions behind the caller's presentation: the coarse classification of
//! a server stage label, the next action it calls for, and the selection of
//! which listed jobs to show.

use vstd::prelude::*;
use crate::models::JobSummary;
use crate::strutil::str_eq;

verus! {

/// The coarse classes of a server stage label.
#[derive(Debug, Clone, Copy, PartialEq, Eq, Structural)]
pub enum StageKind {
    Completed,
    Running,
    Queued,
    Failed,
    Unknown,
}

/// How a stage label classifies: the labels the service emits, with
/// everything else unknown.
pub open spec fn spec_stage_kind(s: Seq<char>) -> StageKind {
    if s == "COMPLETED"@ {
        StageKind::Completed
    } else if s == "RUNNING"@ || s == "RUN"@ {
        StageKind::Running
    } else if s == "QUEUE"@ || s == "SUBMITTED"@ {
        StageKind::Queued
    } else if s == "FAILED"@ {
        StageKind::Failed
    } else {
        StageKind::Unknown
    }
}

/// Classifies a stage label. The class decides both the marker shown next
/// to the stage and the next action suggested to the user: download for a
/// completed job, inspecting the messages for a failed one, checking again
/// later for a queued or running one.
pub fn stage_kind(stage: &str) -> (k: StageKind)
    ensures
        k == spec_stage_kind(stage@),
{
    if str_eq(stage, "COMPLETED") {
        StageKind::Completed
    } else if str_eq(stage, "RUNNING") || str_eq(stage, "RUN") {
        StageKind::Running
    } else if str_eq(stage, "QUEUE") || str_eq(stage, "SUBMITTED") {
        StageKind::Queued
    } else if str_eq(stage, "FAILED") {
        StageKind::Failed
    } else {
        StageKind::Unknown
    }
}

/// Which of the listed jobs are shown: all of them on request; otherwise at
/// most an explicit limit, taken from the front; otherwise the `recent`
/// newest ones (the list is oldest first), with zero meaning no cut.
pub open spec fn spec_select_jobs(
    js: Seq<crate::models::SummaryView>,
    all: bool,
    limit: Option<usize>,
    recent: usize,
) -> Seq<crate::models::SummaryView> {
    if all {
        js
    } else if limit is Some {
        if js.len() <= limit->0 {
            js
        } else {
            js.take(limit->0 as int)
        }
    } else if recent > 0 && js.len() > recent {
        js.skip(js.len() - recent)
    } else {
        js
    }
}

/// Applies the listing filters, preserving document order.
pub fn select_jobs(jobs: Vec<JobSummary>, all: bool, limit: Option<usize>, recent: usize) -> (r:
    Vec<JobSummary>)
    ensures
        ({
            let sel = spec_select_jobs(
                jobs@.map_values(|j: JobSummary| j@),
                all,
                limit,
                recent,
            );
            &&& r@.len() == sel.len()
            &&& (forall|k: int| 0 <= k < sel.len() ==> r@[k]@ == sel[k])
        }),
{
    let ghost orig = jobs@.map_values(|j: JobSummary| j@);
    let mut jobs = jobs;
    if all {
        return jobs;
    }
    if let Some(l) = limit {
        let ghost pre = jobs@;
        jobs.truncate(l);
        proof {
            if l < pre.len() {
                assert(jobs@.map_values(|j: JobSummary| j@) =~= orig.take(l as int));
            } else {
                assert(jobs@ =~= pre);
                assert(jobs@.map_values(|j: JobSummary| j@) =~= orig);
            }
        }
        return jobs;
    }
    let n = jobs.len();
    if recent > 0 && n > recent {
        let start = n - recent;
        let mut kept: Vec<JobSummary> = Vec::new();
        let mut i = start;
        while i < n
            invariant
                start <= i <= n,
                n == jobs.len(),
                orig == jobs@.map_values(|j: JobSummary| j@),
                kept@.len() == i - start,
                forall|k: int| 0 <= k < kept@.len() ==> kept@[k]@ == orig[start + k],
            decreases n - i,
        {
            let j = &jobs[i];
            kept.push(JobSummary { job_id: j.job_id.clone(), url: j.url.clone() });
            i += 1;
        }
        return kept;
    }
    jobs
}

} // verus!
