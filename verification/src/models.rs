//! The typed records produced by the parsers and the lifecycle client, with
//! their mathematical views.

use vstd::prelude::*;

verus! {

/// One job owned by the authenticated account, as listed by the collection
/// document.
#[derive(Debug, Clone)]
pub struct JobSummary {
    pub job_id: String,
    pub url: String,
}

/// The abstract value of a `JobSummary`.
pub struct SummaryView {
    pub job_id: Seq<char>,
    pub url: Seq<char>,
}

impl View for JobSummary {
    type V = SummaryView;

    open spec fn view(&self) -> SummaryView {
        SummaryView { job_id: self.job_id@, url: self.url@ }
    }
}

/// One progress message of a status document, in server emission order.
#[derive(Debug, Clone)]
pub struct JobMessage {
    pub stage: String,
    pub text: String,
    pub timestamp: Option<String>,
}

/// The abstract value of a `JobMessage`.
pub struct MessageView {
    pub stage: Seq<char>,
    pub text: Seq<char>,
    pub timestamp: Option<Seq<char>>,
}

impl View for JobMessage {
    type V = MessageView;

    open spec fn view(&self) -> MessageView {
        MessageView {
            stage: self.stage@,
            text: self.text@,
            timestamp: match self.timestamp {
                Some(t) => Some(t@),
                None => None,
            },
        }
    }
}

/// The decoded single-job status document.
#[derive(Debug, Clone)]
pub struct JobStatus {
    pub job_id: String,
    pub job_stage: String,
    pub failed: bool,
    pub date_submitted: Option<String>,
    pub self_uri: String,
    pub results_uri: Option<String>,
    pub messages: Vec<JobMessage>,
}

/// The abstract value of a `JobStatus`.
pub struct StatusView {
    pub job_id: Seq<char>,
    pub job_stage: Seq<char>,
    pub failed: bool,
    pub date_submitted: Option<Seq<char>>,
    pub self_uri: Seq<char>,
    pub results_uri: Option<Seq<char>>,
    pub messages: Seq<MessageView>,
}

impl View for JobStatus {
    type V = StatusView;

    open spec fn view(&self) -> StatusView {
        StatusView {
            job_id: self.job_id@,
            job_stage: self.job_stage@,
            failed: self.failed,
            date_submitted: match self.date_submitted {
                Some(t) => Some(t@),
                None => None,
            },
            self_uri: self.self_uri@,
            results_uri: match self.results_uri {
                Some(t) => Some(t@),
                None => None,
            },
            messages: self.messages@.map_values(|m: JobMessage| m@),
        }
    }
}

impl JobStatus {
    /// The at most `k` newest messages, in document order.
    pub fn recent_messages(&self, k: usize) -> (r: Vec<JobMessage>)
        ensures
            r@.len() == (if self@.messages.len() <= k {
                self@.messages.len()
            } else {
                k as nat
            }),
            forall|j: int|
                0 <= j < r@.len() ==> r@[j]@ == self@.messages[self@.messages.len() - r@.len()
                    + j],
    {
        let n = self.messages.len();
        let start = if n <= k {
            0
        } else {
            n - k
        };
        let mut out: Vec<JobMessage> = Vec::new();
        let mut i = start;
        while i < n
            invariant
                start <= i <= n,
                n == self.messages.len(),
                out@.len() == i - start,
                forall|j: int| 0 <= j < out@.len() ==> out@[j]@ == self@.messages[start + j],
            decreases n - i,
        {
            let m = &self.messages[i];
            out.push(
                JobMessage {
                    stage: m.stage.clone(),
                    text: m.text.clone(),
                    timestamp: match &m.timestamp {
                        Some(t) => Some(t.clone()),
                        None => None,
                    },
                },
            );
            i += 1;
        }
        out
    }
}

/// One entry of the output-file manifest of a finished job.
#[derive(Debug, Clone)]
pub struct OutputFile {
    pub filename: String,
    pub download_uri: String,
    pub size: u64,
}

/// The abstract value of an `OutputFile`.
pub struct OutputFileView {
    pub filename: Seq<char>,
    pub download_uri: Seq<char>,
    pub size: u64,
}

impl View for OutputFile {
    type V = OutputFileView;

    open spec fn view(&self) -> OutputFileView {
        OutputFileView {
            filename: self.filename@,
            download_uri: self.download_uri@,
            size: self.size,
        }
    }
}

/// The record of one completed transfer.
#[derive(Debug, Clone)]
pub struct DownloadedFile {
    pub filename: String,
    pub local_path: String,
    pub size: u64,
}

} // verus!
