//! The state record of one job and its lifecycle.

use crate::models::{ProcessingStatus, ValidationResponse, ValidationResponseView};
use vstd::prelude::*;

verus! {

/// What the service knows of one job. Times are readings of a monotonic
/// clock, in milliseconds.
#[derive(Debug)]
pub struct ProcessingRecord {
    pub status: ProcessingStatus,
    pub submitted_at: u64,
    pub started_at: Option<u64>,
    pub completed_at: Option<u64>,
    pub result: Option<ValidationResponse>,
}

/// A `ProcessingRecord` as mathematical data.
pub struct RecordView {
    pub status: ProcessingStatus,
    pub submitted_at: u64,
    pub started_at: Option<u64>,
    pub completed_at: Option<u64>,
    pub result: Option<ValidationResponseView>,
}

/// The view of an optional response.
pub open spec fn response_view(response: Option<ValidationResponse>) -> Option<
    ValidationResponseView,
> {
    match response {
        Some(r) => Some(r@),
        None => None,
    }
}

impl View for ProcessingRecord {
    type V = RecordView;

    open spec fn view(&self) -> RecordView {
        RecordView {
            status: self.status,
            submitted_at: self.submitted_at,
            started_at: self.started_at,
            completed_at: self.completed_at,
            result: response_view(self.result),
        }
    }
}

impl RecordView {
    /// The record of a job that was just submitted at `now`.
    pub open spec fn fresh(now: u64) -> RecordView {
        RecordView {
            status: ProcessingStatus::Accepted,
            submitted_at: now,
            started_at: None,
            completed_at: None,
            result: None,
        }
    }

    /// This record once work on the job has begun at `now`.
    pub open spec fn started(self, now: u64) -> RecordView {
        RecordView { status: ProcessingStatus::InProgress, started_at: Some(now), ..self }
    }

    /// This record once the job has ended at `now` with a result.
    pub open spec fn completed(self, result: ValidationResponseView, now: u64) -> RecordView {
        RecordView {
            status: ProcessingStatus::Completed,
            completed_at: Some(now),
            result: Some(result),
            ..self
        }
    }

    /// This record once the job has ended at `now` without a result.
    pub open spec fn failed(self, now: u64) -> RecordView {
        RecordView { status: ProcessingStatus::Failed, completed_at: Some(now), ..self }
    }

    /// The fields agree with the status: a stored status is never
    /// `NotFound`; a result is there exactly when the job completed; a start
    /// time exactly once work has begun; an end time exactly in a terminal
    /// status.
    pub open spec fn is_consistent(self) -> bool {
        &&& self.status != ProcessingStatus::NotFound
        &&& (self.result is Some <==> self.status == ProcessingStatus::Completed)
        &&& (self.started_at is Some <==> self.status != ProcessingStatus::Accepted)
        &&& (self.completed_at is Some <==> self.status.is_terminal())
    }

    /// The times that are set do not run backwards.
    pub open spec fn is_ordered(self) -> bool {
        &&& self.started_at is Some ==> self.submitted_at <= self.started_at->0
        &&& self.started_at is Some && self.completed_at is Some ==> self.started_at->0
            <= self.completed_at->0
    }

    /// Whether at `now` the record is older than `retention` allows. The
    /// status plays no part.
    pub open spec fn is_expired(self, now: u64, retention: u64) -> bool {
        now - self.submitted_at > retention
    }
}

impl Clone for ProcessingRecord {
    fn clone(&self) -> (res: Self)
        ensures
            res@ == self@,
    {
        let result = match &self.result {
            Some(r) => Some(r.clone()),
            None => None,
        };
        ProcessingRecord {
            status: self.status,
            submitted_at: self.submitted_at,
            started_at: self.started_at,
            completed_at: self.completed_at,
            result,
        }
    }
}

impl ProcessingRecord {
    /// The record of a job submitted at `now`: accepted, nothing else set.
    pub fn new(now: u64) -> (res: Self)
        ensures
            res@ == RecordView::fresh(now),
            res@.is_consistent(),
            res@.is_ordered(),
    {
        ProcessingRecord {
            status: ProcessingStatus::Accepted,
            submitted_at: now,
            started_at: None,
            completed_at: None,
            result: None,
        }
    }

    /// Work on the job begins at `now`: accepted becomes in progress.
    pub fn start_processing(&mut self, now: u64)
        requires
            old(self)@.status == ProcessingStatus::Accepted,
        ensures
            final(self)@ == old(self)@.started(now),
            old(self)@.is_consistent() ==> final(self)@.is_consistent(),
            old(self)@.is_consistent() && old(self)@.submitted_at <= now
                ==> final(self)@.is_ordered(),
    {
        self.status = ProcessingStatus::InProgress;
        self.started_at = Some(now);
    }

    /// The job ends at `now` with a result: in progress becomes completed.
    pub fn complete_with_result(&mut self, result: ValidationResponse, now: u64)
        requires
            old(self)@.status == ProcessingStatus::InProgress,
        ensures
            final(self)@ == old(self)@.completed(result@, now),
            old(self)@.is_consistent() ==> final(self)@.is_consistent(),
            old(self)@.is_ordered() && old(self)@.started_at is Some && old(self)@.started_at->0
                <= now ==> final(self)@.is_ordered(),
    {
        self.status = ProcessingStatus::Completed;
        self.completed_at = Some(now);
        self.result = Some(result);
    }

    /// The job ends at `now` without a result: in progress becomes failed.
    pub fn fail(&mut self, now: u64)
        requires
            old(self)@.status == ProcessingStatus::InProgress,
        ensures
            final(self)@ == old(self)@.failed(now),
            old(self)@.is_consistent() ==> final(self)@.is_consistent(),
            old(self)@.is_ordered() && old(self)@.started_at is Some && old(self)@.started_at->0
                <= now ==> final(self)@.is_ordered(),
    {
        self.status = ProcessingStatus::Failed;
        self.completed_at = Some(now);
    }

    /// Whether at `now` the record is older than `retention` allows.
    pub fn is_expired(&self, now: u64, retention: u64) -> (expired: bool)
        ensures
            expired == self@.is_expired(now, retention),
    {
        now > self.submitted_at && now - self.submitted_at > retention
    }
}

} // verus!
