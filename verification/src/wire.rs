//! The answers of the service as JSON text.

use crate::handlers::{ApiResponse, ErrorResponse, HealthResponse, SubmitResponse};
use crate::models::{
    texts, ProcessingStatus, Resolution, StatusResponse, ValidationResponse,
    ValidationResponseView, ValidationResults, ValidationResultsView,
};
use crate::queue::QueueStats;
use crate::text::{decimal, decimal_text, join, text_of};
use vstd::prelude::*;

verus! {

/// A text as a JSON string, quotes and escapes included, where
/// `serde_json::to_string` gives one.
pub uninterp spec fn json_quoted(text: Seq<char>) -> Option<Seq<char>>;

/// Calls `serde_json::to_string` on a text. Trusted: the result is a
/// function of the text alone, named `json_quoted`; `None` where serde_json
/// reports an error.
#[verifier::external_body]
fn quote(text: &str) -> (res: Option<String>)
    ensures
        text_of(res) == json_quoted(text@),
{
    serde_json::to_string(text).ok()
}

/// The items of a JSON array of strings, with commas between them.
pub open spec fn json_items(items: Seq<Seq<char>>) -> Option<Seq<char>>
    decreases items.len(),
{
    if items.len() == 0 {
        Some(Seq::empty())
    } else {
        match (json_items(items.drop_last()), json_quoted(items.last())) {
            (Some(before), Some(last)) => Some(
                if items.len() == 1 {
                    last
                } else {
                    before + ","@ + last
                },
            ),
            _ => None,
        }
    }
}

/// The name of a verdict as a JSON string.
pub open spec fn resolution_json(resolution: Resolution) -> Seq<char> {
    match resolution {
        Resolution::Accepted => "\"accepted\""@,
        Resolution::Rejected => "\"rejected\""@,
    }
}

/// The name of a status as a JSON string.
pub open spec fn status_json(status: ProcessingStatus) -> Seq<char> {
    match status {
        ProcessingStatus::Accepted => "\"accepted\""@,
        ProcessingStatus::InProgress => "\"in_progress\""@,
        ProcessingStatus::Completed => "\"completed\""@,
        ProcessingStatus::Failed => "\"failed\""@,
        ProcessingStatus::NotFound => "\"not_found\""@,
    }
}

/// A result as JSON: the verdict under `resolution` and, where there are
/// reasons, the reasons in their order under `resons`. The key is written
/// as consumers know it. Without reasons there is no such key.
pub open spec fn results_json(results: ValidationResultsView) -> Option<Seq<char>> {
    match results.reasons {
        None => Some("{\"resolution\":"@ + resolution_json(results.resolution) + "}"@),
        Some(reasons) => match json_items(reasons) {
            Some(items) => Some(
                "{\"resolution\":"@ + resolution_json(results.resolution) + ",\"resons\":["@
                    + items + "]}"@,
            ),
            None => None,
        },
    }
}

/// The result of a job as JSON: the id under `processing-id`, the result
/// under `results`.
pub open spec fn response_json(response: ValidationResponseView) -> Option<Seq<char>> {
    match (json_quoted(response.processing_id), results_json(response.results)) {
        (Some(id), Some(results)) => Some(
            "{\"processing-id\":"@ + id + ",\"results\":"@ + results + "}"@,
        ),
        _ => None,
    }
}

/// The status of a job as JSON.
pub open spec fn status_response_json(id: Seq<char>, status: ProcessingStatus) -> Option<
    Seq<char>,
> {
    match json_quoted(id) {
        Some(id) => Some(
            "{\"processing-id\":"@ + id + ",\"status\":"@ + status_json(status) + "}"@,
        ),
        None => None,
    }
}

/// The answer to an admitted submission as JSON.
pub open spec fn submit_response_json(id: Seq<char>, status: Seq<char>) -> Option<Seq<char>> {
    match (json_quoted(id), json_quoted(status)) {
        (Some(id), Some(status)) => Some(
            "{\"processing-id\":"@ + id + ",\"status\":"@ + status + "}"@,
        ),
        _ => None,
    }
}

/// The counts of the pipeline as JSON.
pub open spec fn stats_json(stats: QueueStats) -> Seq<char> {
    "{\"total\":"@ + decimal_text(stats.total as nat) + ",\"accepted\":"@ + decimal_text(
        stats.accepted as nat,
    ) + ",\"in_progress\":"@ + decimal_text(stats.in_progress as nat) + ",\"completed\":"@
        + decimal_text(stats.completed as nat) + ",\"failed\":"@ + decimal_text(
        stats.failed as nat,
    ) + ",\"available_permits\":"@ + decimal_text(stats.available_permits as nat) + "}"@
}

/// The answer to a health check as JSON.
pub open spec fn health_json(status: Seq<char>, version: Seq<char>, stats: QueueStats) -> Option<
    Seq<char>,
> {
    match (json_quoted(status), json_quoted(version)) {
        (Some(status), Some(version)) => Some(
            "{\"status\":"@ + status + ",\"version\":"@ + version + ",\"queue_stats\":"@
                + stats_json(stats) + "}"@,
        ),
        _ => None,
    }
}

/// An optional text as JSON: the string, or `null`.
pub open spec fn optional_json(text: Option<Seq<char>>) -> Option<Seq<char>> {
    match text {
        Some(text) => json_quoted(text),
        None => Some("null"@),
    }
}

/// The answer to a request that no route serves, as JSON.
pub open spec fn error_response_json(error: Seq<char>, details: Option<Seq<char>>) -> Option<
    Seq<char>,
> {
    match (json_quoted(error), optional_json(details)) {
        (Some(error), Some(details)) => Some(
            "{\"error\":"@ + error + ",\"details\":"@ + details + "}"@,
        ),
        _ => None,
    }
}

/// The envelope of an answer without payload as JSON: the success flag, no
/// data, the message.
pub open spec fn refusal_json(success: bool, error: Option<Seq<char>>) -> Option<Seq<char>> {
    match optional_json(error) {
        Some(error) => Some(
            "{\"success\":"@ + (if success {
                "true"@
            } else {
                "false"@
            }) + ",\"data\":null,\"error\":"@ + error + "}"@,
        ),
        None => None,
    }
}

fn write_items(items: &Vec<String>) -> (res: Option<String>)
    ensures
        text_of(res) == json_items(texts(items@)),
{
    let mut out = String::new();
    let mut i: usize = 0;
    proof {
        assert(texts(items@).subrange(0, 0) =~= Seq::<Seq<char>>::empty());
    }
    while i < items.len()
        invariant
            i <= items@.len(),
            json_items(texts(items@).subrange(0, i as int)) == Some(out@),
        decreases items@.len() - i,
    {
        proof {
            let upto = texts(items@).subrange(0, i + 1);
            assert(upto.drop_last() =~= texts(items@).subrange(0, i as int));
            assert(upto.last() == items@[i as int]@);
        }
        match quote(items[i].as_str()) {
            Some(quoted) => {
                if i > 0 {
                    out.append(",");
                }
                out.append(quoted.as_str());
                proof {
                    if i == 0 {
                        assert(out@ =~= quoted@);
                    }
                }
            },
            None => {
                proof {
                    lemma_items_fail(texts(items@), i as int);
                }
                return None;
            },
        }
        i += 1;
    }
    proof {
        assert(texts(items@).subrange(0, i as int) =~= texts(items@));
    }
    Some(out)
}

/// Where one item cannot be quoted, the list cannot be written.
proof fn lemma_items_fail(items: Seq<Seq<char>>, at: int)
    requires
        0 <= at < items.len(),
        json_quoted(items[at]) is None,
    ensures
        json_items(items) is None,
    decreases items.len(),
{
    if at < items.len() - 1 {
        lemma_items_fail(items.drop_last(), at);
    }
}

impl Resolution {
    /// The name of the verdict as a JSON string.
    pub fn to_json(&self) -> (text: &'static str)
        ensures
            text@ == resolution_json(*self),
    {
        match self {
            Resolution::Accepted => "\"accepted\"",
            Resolution::Rejected => "\"rejected\"",
        }
    }
}

impl ProcessingStatus {
    /// The name of the status as a JSON string.
    pub fn to_json(&self) -> (text: &'static str)
        ensures
            text@ == status_json(*self),
    {
        match self {
            ProcessingStatus::Accepted => "\"accepted\"",
            ProcessingStatus::InProgress => "\"in_progress\"",
            ProcessingStatus::Completed => "\"completed\"",
            ProcessingStatus::Failed => "\"failed\"",
            ProcessingStatus::NotFound => "\"not_found\"",
        }
    }
}

impl ValidationResults {
    /// Writes the result as JSON. The reasons go out as they are, in their
    /// order, under the key `resons`; a result without reasons has no such
    /// key.
    pub fn to_json(&self) -> (res: Option<String>)
        ensures
            text_of(res) == results_json(self@),
    {
        let mut out = join("{\"resolution\":", self.resolution.to_json());
        match &self.reasons {
            None => {
                out.append("}");
                Some(out)
            },
            Some(reasons) => match write_items(reasons) {
                Some(items) => {
                    out.append(",\"resons\":[");
                    out.append(items.as_str());
                    out.append("]}");
                    Some(out)
                },
                None => None,
            },
        }
    }
}

impl ValidationResponse {
    /// Writes the result of a job as JSON.
    pub fn to_json(&self) -> (res: Option<String>)
        ensures
            text_of(res) == response_json(self@),
    {
        match (quote(self.processing_id.as_str()), self.results.to_json()) {
            (Some(id), Some(results)) => {
                let mut out = join("{\"processing-id\":", id.as_str());
                out.append(",\"results\":");
                out.append(results.as_str());
                out.append("}");
                Some(out)
            },
            _ => None,
        }
    }
}

impl StatusResponse {
    /// Writes the status of a job as JSON.
    pub fn to_json(&self) -> (res: Option<String>)
        ensures
            text_of(res) == status_response_json(self.processing_id@, self.status),
    {
        match quote(self.processing_id.as_str()) {
            Some(id) => {
                let mut out = join("{\"processing-id\":", id.as_str());
                out.append(",\"status\":");
                out.append(self.status.to_json());
                out.append("}");
                Some(out)
            },
            None => None,
        }
    }
}

impl SubmitResponse {
    /// Writes the answer to an admitted submission as JSON.
    pub fn to_json(&self) -> (res: Option<String>)
        ensures
            text_of(res) == submit_response_json(self.processing_id@, self.status@),
    {
        match (quote(self.processing_id.as_str()), quote(self.status.as_str())) {
            (Some(id), Some(status)) => {
                let mut out = join("{\"processing-id\":", id.as_str());
                out.append(",\"status\":");
                out.append(status.as_str());
                out.append("}");
                Some(out)
            },
            _ => None,
        }
    }
}

impl QueueStats {
    /// Writes the counts as JSON.
    pub fn to_json(&self) -> (text: String)
        ensures
            text@ == stats_json(*self),
    {
        let total = decimal(self.total as u64);
        let accepted = decimal(self.accepted as u64);
        let in_progress = decimal(self.in_progress as u64);
        let completed = decimal(self.completed as u64);
        let failed = decimal(self.failed as u64);
        let available_permits = decimal(self.available_permits as u64);
        let mut out = join("{\"total\":", total.as_str());
        out.append(",\"accepted\":");
        out.append(accepted.as_str());
        out.append(",\"in_progress\":");
        out.append(in_progress.as_str());
        out.append(",\"completed\":");
        out.append(completed.as_str());
        out.append(",\"failed\":");
        out.append(failed.as_str());
        out.append(",\"available_permits\":");
        out.append(available_permits.as_str());
        out.append("}");
        out
    }
}

impl HealthResponse {
    /// Writes the answer to a health check as JSON.
    pub fn to_json(&self) -> (res: Option<String>)
        ensures
            text_of(res) == health_json(self.status@, self.version@, self.queue_stats),
    {
        match (quote(self.status.as_str()), quote(self.version.as_str())) {
            (Some(status), Some(version)) => {
                let stats = self.queue_stats.to_json();
                let mut out = join("{\"status\":", status.as_str());
                out.append(",\"version\":");
                out.append(version.as_str());
                out.append(",\"queue_stats\":");
                out.append(stats.as_str());
                out.append("}");
                Some(out)
            },
            _ => None,
        }
    }
}

fn write_optional(text: &Option<String>) -> (res: Option<String>)
    ensures
        text_of(res) == optional_json(text_of(*text)),
{
    match text {
        Some(text) => quote(text.as_str()),
        None => Some("null".to_owned()),
    }
}

impl ErrorResponse {
    /// Writes the answer to a request that no route serves as JSON.
    pub fn to_json(&self) -> (res: Option<String>)
        ensures
            text_of(res) == error_response_json(
                self.error@,
                text_of(self.details),
            ),
    {
        match (quote(self.error.as_str()), write_optional(&self.details)) {
            (Some(error), Some(details)) => {
                let mut out = join("{\"error\":", error.as_str());
                out.append(",\"details\":");
                out.append(details.as_str());
                out.append("}");
                Some(out)
            },
            _ => None,
        }
    }
}

impl ApiResponse<()> {
    /// Writes the envelope of an answer without payload as JSON.
    pub fn to_json(&self) -> (res: Option<String>)
        ensures
            text_of(res) == refusal_json(
                self.success,
                text_of(self.error),
            ),
    {
        match write_optional(&self.error) {
            Some(error) => {
                let mut out = join(
                    "{\"success\":",
                    if self.success {
                        "true"
                    } else {
                        "false"
                    },
                );
                out.append(",\"data\":null,\"error\":");
                out.append(error.as_str());
                out.append("}");
                Some(out)
            },
            None => None,
        }
    }
}

} // verus!
