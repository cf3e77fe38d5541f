//! The job pipeline: the bounded queue of submissions, the index of job
//! records, the rate gate, and the steps that the worker and the reaper take
//! on them. The pipeline holds no clock and does no waiting: its caller hands
//! in the time and carries out what a step returns.

use crate::config::Config;
use crate::index::{ids_with, unexpired, RecordIndex};
use crate::models::{
    ProcessingRequest, ProcessingStatus, ValidationResponse, ValidationResponseView,
    ValidationResults, ValidationResultsView,
};
use crate::record::{response_view, ProcessingRecord, RecordView};
use crate::text::join;
use std::collections::VecDeque;
use vstd::prelude::*;

verus! {

broadcast use vstd::set::group_set_axioms, vstd::map::group_map_axioms;

/// How long shutdown waits for the job in progress, in milliseconds.
pub const SHUTDOWN_GRACE_MILLIS: u64 = 10000;

/// The time between two sweeps of the reaper, in milliseconds.
pub const CLEANUP_INTERVAL_MILLIS: u64 = 300000;

/// Why the pipeline refused an operation.
#[derive(Debug)]
pub enum QueueError {
    QueueFull,
    QueueClosed,
    AlreadyExists,
    NotFound,
    Internal(String),
}

impl QueueError {
    /// The message of the error.
    pub open spec fn message(self) -> Seq<char> {
        match self {
            QueueError::QueueFull => "Queue is full"@,
            QueueError::QueueClosed => "Queue is closed"@,
            QueueError::AlreadyExists => "Request already exists"@,
            QueueError::NotFound => "Request not found"@,
            QueueError::Internal(s) => "Internal error: "@ + s@,
        }
    }

    /// The message of the error.
    pub fn to_string(&self) -> (text: String)
        ensures
            text@ == self.message(),
    {
        match self {
            QueueError::QueueFull => "Queue is full".to_owned(),
            QueueError::QueueClosed => "Queue is closed".to_owned(),
            QueueError::AlreadyExists => "Request already exists".to_owned(),
            QueueError::NotFound => "Request not found".to_owned(),
            QueueError::Internal(s) => join("Internal error: ", s.as_str()),
        }
    }
}

/// What the worker receives from the queue.
#[derive(Debug)]
pub enum QueueItem<L> {
    ValidationRequest(ProcessingRequest<L>),
    Shutdown,
}

/// How the processing of a job ended: with a result, with an error of the
/// processor, or at the deadline.
#[derive(Debug)]
pub enum JobOutcome {
    Validated(ValidationResults),
    Errored,
    TimedOut,
}

impl JobOutcome {
    /// The result that the outcome carries, if any.
    pub open spec fn result(self) -> Option<ValidationResultsView> {
        match self {
            JobOutcome::Validated(results) => Some(results@),
            _ => None,
        }
    }
}

/// Counts over the job records, and the permits of the rate gate that are
/// free.
#[derive(Clone, Copy, Debug, PartialEq, Eq, Structural)]
pub struct QueueStats {
    pub total: usize,
    pub accepted: usize,
    pub in_progress: usize,
    pub completed: usize,
    pub failed: usize,
    pub available_permits: usize,
}

impl Default for QueueStats {
    /// Counts that are all zero.
    fn default() -> (stats: Self)
        ensures
            stats == (QueueStats {
                total: 0,
                accepted: 0,
                in_progress: 0,
                completed: 0,
                failed: 0,
                available_permits: 0,
            }),
    {
        QueueStats {
            total: 0,
            accepted: 0,
            in_progress: 0,
            completed: 0,
            failed: 0,
            available_permits: 0,
        }
    }
}

/// The pipeline as mathematical data.
pub struct QueueView<L> {
    /// How many submissions the queue holds at most.
    pub capacity: nat,
    /// How many permits the rate gate has.
    pub permits: nat,
    /// Whether shutdown has begun.
    pub closed: bool,
    /// The submissions that wait for the worker, oldest first.
    pub pending: Seq<ProcessingRequest<L>>,
    /// The record of each tracked job, under the job's id.
    pub records: Map<Seq<char>, RecordView>,
    /// The id of the job that the worker is processing, if any.
    pub running: Option<Seq<char>>,
    /// The time before which the worker gets no further job: the end of its
    /// last job and the pause after it.
    pub ready_at: u64,
}

impl<L> QueueView<L> {
    /// The pipeline right after construction.
    pub open spec fn initial(capacity: nat, permits: nat) -> Self {
        QueueView {
            capacity,
            permits,
            closed: false,
            pending: Seq::empty(),
            records: Map::empty(),
            running: None,
            ready_at: 0,
        }
    }

    /// The status under which `id` is known, `NotFound` if it is not.
    pub open spec fn status_of(self, id: Seq<char>) -> ProcessingStatus {
        if self.records.dom().contains(id) {
            self.records[id].status
        } else {
            ProcessingStatus::NotFound
        }
    }

    /// The result stored for `id`, if any.
    pub open spec fn result_of(self, id: Seq<char>) -> Option<ValidationResponseView> {
        if self.records.dom().contains(id) {
            self.records[id].result
        } else {
            None
        }
    }

    /// Whether a submission under `id` waits in the queue.
    pub open spec fn is_pending(self, id: Seq<char>) -> bool {
        exists|k: int|
            0 <= k < self.pending.len() && (#[trigger] self.pending[k]).processing_id@ == id
    }

    /// The permits of the rate gate that are free: all but the one that a
    /// job in progress holds.
    pub open spec fn available_permits(self) -> nat {
        if self.running is Some {
            (self.permits - 1) as nat
        } else {
            self.permits
        }
    }

    /// What holds of the pipeline at all times: the queue is within its
    /// capacity, the rate gate has a permit, every record agrees with its
    /// status, every accepted job waits in the queue, and the only job in
    /// progress is the one that the worker holds.
    pub open spec fn is_valid(self) -> bool {
        &&& self.capacity >= 1
        &&& self.permits >= 1
        &&& self.pending.len() <= self.capacity
        &&& self.records.dom().finite()
        &&& forall|id: Seq<char>| #[trigger]
            self.records.dom().contains(id) ==> self.records[id].is_consistent()
        &&& forall|id: Seq<char>| #[trigger]
            self.records.dom().contains(id) && self.records[id].status
                == ProcessingStatus::Accepted ==> self.is_pending(id)
        &&& forall|id: Seq<char>| #[trigger]
            self.records.dom().contains(id) && self.records[id].status
                == ProcessingStatus::InProgress ==> self.running == Some(id)
    }

    /// Why a submission under `id` is refused, if it is: after shutdown, for
    /// an id that is already tracked, or with the queue full, in this order.
    pub open spec fn refusal(self, id: Seq<char>) -> Option<QueueError> {
        if self.closed {
            Some(QueueError::QueueClosed)
        } else if self.records.dom().contains(id) {
            Some(QueueError::AlreadyExists)
        } else if self.pending.len() >= self.capacity {
            Some(QueueError::QueueFull)
        } else {
            None
        }
    }

    /// The pipeline after `request` was admitted at `now`.
    pub open spec fn submitted(self, request: ProcessingRequest<L>, now: u64) -> Self {
        QueueView {
            pending: self.pending.push(request),
            records: self.records.insert(request.processing_id@, RecordView::fresh(now)),
            ..self
        }
    }

    /// The pipeline after a call of `submit_validation`.
    pub open spec fn after_submit(self, request: ProcessingRequest<L>, now: u64) -> Self {
        if self.refusal(request.processing_id@) is None {
            self.submitted(request, now)
        } else {
            self
        }
    }

    /// Whether the worker gets a job at `now`: it holds none, one waits, and
    /// the pause after its last job is over.
    pub open spec fn hands_out_job(self, now: u64) -> bool {
        self.running is None && self.pending.len() > 0 && now >= self.ready_at
    }

    /// What the worker receives at `now`: nothing while a job is in progress
    /// or the pause after it lasts; else the oldest submission; else, after
    /// shutdown, the signal to stop.
    pub open spec fn next_item(self, now: u64) -> Option<QueueItem<L>> {
        if self.running is Some {
            None
        } else if self.pending.len() > 0 {
            if now >= self.ready_at {
                Some(QueueItem::ValidationRequest(self.pending[0]))
            } else {
                None
            }
        } else if self.closed {
            Some(QueueItem::Shutdown)
        } else {
            None
        }
    }

    /// The pipeline after the worker asked for its next item at `now`: a
    /// submission that was handed out has left the queue and is the job in
    /// progress, and its record, where it is still accepted, says so.
    pub open spec fn after_receive(self, now: u64) -> Self {
        if self.hands_out_job(now) {
            let id = self.pending[0].processing_id@;
            QueueView {
                pending: self.pending.drop_first(),
                records: if self.status_of(id) == ProcessingStatus::Accepted {
                    self.records.insert(id, self.records[id].started(now))
                } else {
                    self.records
                },
                running: Some(id),
                ..self
            }
        } else {
            self
        }
    }

    /// The time at which the pause after a job that ended at `now` is over.
    pub open spec fn pause_end(self, now: u64) -> u64 {
        if now + self.throttle_interval() <= u64::MAX {
            (now + self.throttle_interval()) as u64
        } else {
            u64::MAX
        }
    }

    /// The pipeline after the job in progress ended at `now`: its record,
    /// where it is still in progress, is completed with the result or
    /// failed, the worker is free again, and its pause begins.
    pub open spec fn after_finish(self, result: Option<ValidationResultsView>, now: u64) -> Self {
        match self.running {
            None => self,
            Some(id) => QueueView {
                records: if self.status_of(id) == ProcessingStatus::InProgress {
                    match result {
                        Some(results) => self.records.insert(
                            id,
                            self.records[id].completed(
                                ValidationResponseView { processing_id: id, results },
                                now,
                            ),
                        ),
                        None => self.records.insert(id, self.records[id].failed(now)),
                    }
                } else {
                    self.records
                },
                running: None,
                ready_at: self.pause_end(now),
                ..self
            },
        }
    }

    /// The pipeline after the reaper removed, at `now`, every record older
    /// than `retention`.
    pub open spec fn after_cleanup(self, now: u64, retention: u64) -> Self {
        QueueView { records: unexpired(self.records, now, retention), ..self }
    }

    /// The pipeline after shutdown has begun.
    pub open spec fn after_shutdown(self) -> Self {
        QueueView { closed: true, ..self }
    }

    /// Whether `stats` are the counts of this pipeline: the records in all
    /// and by status, and the free permits.
    pub open spec fn is_counted_by(self, stats: QueueStats) -> bool {
        &&& stats.total == self.records.dom().len()
        &&& stats.accepted == ids_with(self.records, ProcessingStatus::Accepted).len()
        &&& stats.in_progress == ids_with(self.records, ProcessingStatus::InProgress).len()
        &&& stats.completed == ids_with(self.records, ProcessingStatus::Completed).len()
        &&& stats.failed == ids_with(self.records, ProcessingStatus::Failed).len()
        &&& stats.available_permits == self.available_permits()
    }

    /// The pause between two jobs, in milliseconds: a minute divided by the
    /// permitted requests per minute.
    pub open spec fn throttle_interval(self) -> int {
        60000int / (self.permits as int)
    }
}

/// The pipeline: submissions wait in a bounded queue, a single worker takes
/// them in order, and each job's record tells where it stands.
#[derive(Debug)]
pub struct ProcessingQueue<L> {
    capacity: usize,
    permits: usize,
    closed: bool,
    pending: VecDeque<ProcessingRequest<L>>,
    records: RecordIndex,
    running: Option<String>,
    ready_at: u64,
}

impl<L> View for ProcessingQueue<L> {
    type V = QueueView<L>;

    closed spec fn view(&self) -> QueueView<L> {
        QueueView {
            capacity: self.capacity as nat,
            permits: self.permits as nat,
            closed: self.closed,
            pending: self.pending@,
            records: self.records@,
            running: match self.running {
                Some(id) => Some(id@),
                None => None,
            },
            ready_at: self.ready_at,
        }
    }
}

impl<L> ProcessingQueue<L> {
    /// The pipeline is in a state that its operations can have produced.
    pub closed spec fn wf(&self) -> bool {
        &&& self.records.wf()
        &&& self@.is_valid()
    }

    /// A well-formed pipeline is valid.
    pub proof fn lemma_valid(&self)
        requires
            self.wf(),
        ensures
            self@.is_valid(),
    {
    }

    /// A pipeline for the given settings: nothing queued, nothing tracked.
    pub fn new(config: &Config) -> (res: Self)
        requires
            config.limits_hold(),
        ensures
            res.wf(),
            res@ == QueueView::<L>::initial(
                config.queue_size as nat,
                config.throttle_requests_per_minute as nat,
            ),
    {
        let res = ProcessingQueue {
            capacity: config.queue_size,
            permits: config.throttle_requests_per_minute as usize,
            closed: false,
            pending: VecDeque::new(),
            records: RecordIndex::new(),
            running: None,
            ready_at: 0,
        };
        proof {
            assert(res@.pending =~= Seq::<ProcessingRequest<L>>::empty());
            assert(res@ == QueueView::<L>::initial(
                config.queue_size as nat,
                config.throttle_requests_per_minute as nat,
            ));
        }
        res
    }

    /// Admits a submission at `now`, or refuses it: after shutdown with
    /// `QueueClosed`, for an id that is already tracked with `AlreadyExists`,
    /// with the queue full with `QueueFull`. An admitted submission is
    /// tracked as accepted and waits at the end of the queue; a refused one
    /// leaves the pipeline as it was.
    pub fn submit_validation(&mut self, request: ProcessingRequest<L>, now: u64) -> (res: Result<
        (),
        QueueError,
    >)
        requires
            old(self).wf(),
        ensures
            final(self).wf(),
            match res {
                Ok(_) => old(self)@.refusal(request.processing_id@) is None,
                Err(e) => old(self)@.refusal(request.processing_id@) == Some(e),
            },
            final(self)@ == old(self)@.after_submit(request, now),
    {
        if self.closed {
            return Err(QueueError::QueueClosed);
        }
        if self.records.get(request.processing_id.as_str()).is_some() {
            return Err(QueueError::AlreadyExists);
        }
        if self.pending.len() >= self.capacity {
            return Err(QueueError::QueueFull);
        }
        let ghost before = self@;
        let id = request.processing_id.clone();
        self.records.insert(id, ProcessingRecord::new(now));
        self.pending.push_back(request);
        proof {
            assert(self@ == before.submitted(request, now));
            lemma_submit_keeps_valid(before, request, now);
        }
        Ok(())
    }

    /// The status under which `id` is known, `NotFound` if it is not.
    pub fn get_status(&self, id: &str) -> (status: ProcessingStatus)
        requires
            self.wf(),
        ensures
            status == self@.status_of(id@),
    {
        match self.records.get(id) {
            Some(record) => record.status,
            None => ProcessingStatus::NotFound,
        }
    }

    /// The result stored for `id`: there is one exactly when the job's
    /// status is `Completed`.
    pub fn get_result(&self, id: &str) -> (res: Option<ValidationResponse>)
        requires
            self.wf(),
        ensures
            response_view(res) == self@.result_of(id@),
            res is Some <==> self@.status_of(id@) == ProcessingStatus::Completed,
    {
        match self.records.get(id) {
            Some(record) => match &record.result {
                Some(response) => Some(response.clone()),
                None => None,
            },
            None => None,
        }
    }

    /// Begins shutdown: from now on every submission is refused. What waits
    /// in the queue stays there for the worker. A second call changes
    /// nothing.
    pub fn shutdown(&mut self)
        requires
            old(self).wf(),
        ensures
            final(self).wf(),
            final(self)@ == old(self)@.after_shutdown(),
    {
        self.closed = true;
    }

    /// The worker asks for its next item at `now`. While a job is in
    /// progress it gets nothing: one job at a time. Nor does it get a job
    /// before the pause after its last job is over. Else it gets the oldest
    /// submission, which thereby becomes the job in progress and holds a
    /// permit of the rate gate; with nothing waiting it gets, after
    /// shutdown, the signal to stop; else nothing.
    pub fn receive(&mut self, now: u64) -> (item: Option<QueueItem<L>>)
        requires
            old(self).wf(),
        ensures
            final(self).wf(),
            item == old(self)@.next_item(now),
            final(self)@ == old(self)@.after_receive(now),
    {
        if self.running.is_some() {
            return None;
        }
        if self.pending.len() > 0 && now < self.ready_at {
            return None;
        }
        let ghost before = self@;
        match self.pending.pop_front() {
            Some(request) => {
                let id = request.processing_id.clone();
                match self.records.take(id.as_str()) {
                    Some(record) => {
                        let mut record = record;
                        if record.status == ProcessingStatus::Accepted {
                            record.start_processing(now);
                        }
                        self.records.insert(id.clone(), record);
                    },
                    None => {},
                }
                self.running = Some(id);
                proof {
                    assert(self@.pending =~= before.pending.drop_first());
                    assert(self@.records =~= before.after_receive(now).records);
                    assert(self@ == before.after_receive(now));
                    lemma_receive_keeps_valid(before, now);
                }
                Some(QueueItem::ValidationRequest(request))
            },
            None => {
                if self.closed {
                    Some(QueueItem::Shutdown)
                } else {
                    None
                }
            },
        }
    }

    /// The job in progress ended at `now`. Its record, where it is still in
    /// progress, becomes completed with the result, or failed after an error
    /// or at the deadline; the worker is free again and its permit is free
    /// again. Gives the pause that the worker makes before its next job, in
    /// milliseconds.
    pub fn finish_processing(&mut self, outcome: JobOutcome, now: u64) -> (pause: u64)
        requires
            old(self).wf(),
        ensures
            final(self).wf(),
            final(self)@ == old(self)@.after_finish(outcome.result(), now),
            pause == old(self)@.throttle_interval(),
    {
        let ghost before = self@;
        let pause: u64 = 60000 / (self.permits as u64);
        let running = self.running.take();
        match running {
            Some(id) => {
                self.ready_at = if now <= u64::MAX - pause {
                    now + pause
                } else {
                    u64::MAX
                };
                match self.records.take(id.as_str()) {
                    Some(record) => {
                        let mut record = record;
                        if record.status == ProcessingStatus::InProgress {
                            match outcome {
                                JobOutcome::Validated(results) => {
                                    let response = ValidationResponse {
                                        processing_id: id.clone(),
                                        results,
                                    };
                                    record.complete_with_result(response, now);
                                },
                                _ => {
                                    record.fail(now);
                                },
                            }
                        }
                        self.records.insert(id, record);
                    },
                    None => {},
                }
                proof {
                    assert(self@.records =~= before.after_finish(outcome.result(), now).records);
                    assert(self@ == before.after_finish(outcome.result(), now));
                    lemma_finish_keeps_valid(before, outcome.result(), now);
                }
            },
            None => {},
        }
        pause
    }

    /// How long, at `now`, the pause after the last job still lasts, in
    /// milliseconds.
    pub fn pause_remaining(&self, now: u64) -> (millis: u64)
        requires
            self.wf(),
        ensures
            millis == if now < self@.ready_at {
                self@.ready_at - now
            } else {
                0
            },
    {
        if now < self.ready_at {
            self.ready_at - now
        } else {
            0
        }
    }

    /// The reaper's sweep at `now`: removes every record older than
    /// `retention`, whatever its status, and nothing else, and says how many
    /// it removed. The queue and the job in progress are not touched.
    pub fn cleanup_expired(&mut self, now: u64, retention: u64) -> (removed: usize)
        requires
            old(self).wf(),
        ensures
            final(self).wf(),
            final(self)@ == old(self)@.after_cleanup(now, retention),
            removed == old(self)@.records.dom().len() - final(self)@.records.dom().len(),
    {
        let ghost before = self@;
        let removed = self.records.retain_unexpired(now, retention);
        proof {
            lemma_cleanup_keeps_valid(before, now, retention);
        }
        removed
    }

    /// Counts the records by status, and the free permits of the rate gate.
    pub fn get_queue_stats(&self) -> (stats: QueueStats)
        requires
            self.wf(),
        ensures
            self@.is_counted_by(stats),
            stats.total == stats.accepted + stats.in_progress + stats.completed + stats.failed,
    {
        let total = self.records.len();
        let accepted = self.records.count(ProcessingStatus::Accepted);
        let in_progress = self.records.count(ProcessingStatus::InProgress);
        let completed = self.records.count(ProcessingStatus::Completed);
        let failed = self.records.count(ProcessingStatus::Failed);
        let available_permits = if self.running.is_some() {
            self.permits - 1
        } else {
            self.permits
        };
        proof {
            lemma_statuses_partition(self@.records);
        }
        QueueStats { total, accepted, in_progress, completed, failed, available_permits }
    }
}

/// Admitting or refusing a submission keeps the pipeline valid.
pub proof fn lemma_submit_keeps_valid<L>(q: QueueView<L>, request: ProcessingRequest<L>, now: u64)
    requires
        q.is_valid(),
    ensures
        q.after_submit(request, now).is_valid(),
{
    let after = q.after_submit(request, now);
    if q.refusal(request.processing_id@) is None {
        assert forall|other: Seq<char>| #[trigger]
            after.records.dom().contains(other) && after.records[other].status
                == ProcessingStatus::Accepted implies after.is_pending(other) by {
            if other == request.processing_id@ {
                assert(after.pending[q.pending.len() as int] == request);
            } else {
                assert(q.records.dom().contains(other));
                assert(q.is_pending(other));
                let k = choose|k: int|
                    0 <= k < q.pending.len() && (#[trigger] q.pending[k]).processing_id@ == other;
                assert(after.pending[k] == q.pending[k]);
            }
        }
        assert forall|other: Seq<char>| #[trigger]
            after.records.dom().contains(other) implies after.records[other].is_consistent() by {
            if other != request.processing_id@ {
                assert(q.records.dom().contains(other));
            }
        }
        assert forall|other: Seq<char>| #[trigger]
            after.records.dom().contains(other) && after.records[other].status
                == ProcessingStatus::InProgress implies after.running == Some(other) by {
            assert(q.records.dom().contains(other));
        }
    }
}

/// Handing the next item to the worker keeps the pipeline valid.
pub proof fn lemma_receive_keeps_valid<L>(q: QueueView<L>, now: u64)
    requires
        q.is_valid(),
    ensures
        q.after_receive(now).is_valid(),
{
    let after = q.after_receive(now);
    if q.hands_out_job(now) {
        assert forall|other: Seq<char>| #[trigger]
            after.records.dom().contains(other) && after.records[other].status
                == ProcessingStatus::Accepted implies after.is_pending(other) by {
            assert(q.records.dom().contains(other));
            assert(q.is_pending(other));
            let k = choose|k: int|
                0 <= k < q.pending.len() && (#[trigger] q.pending[k]).processing_id@ == other;
            assert(after.pending[k - 1] == q.pending[k]);
        }
        assert forall|other: Seq<char>| #[trigger]
            after.records.dom().contains(other) implies after.records[other].is_consistent() by {
            assert(q.records.dom().contains(other));
        }
        assert forall|other: Seq<char>| #[trigger]
            after.records.dom().contains(other) && after.records[other].status
                == ProcessingStatus::InProgress implies after.running == Some(other) by {
            assert(q.records.dom().contains(other));
        }
    }
}

/// Ending the job in progress keeps the pipeline valid.
pub proof fn lemma_finish_keeps_valid<L>(
    q: QueueView<L>,
    result: Option<ValidationResultsView>,
    now: u64,
)
    requires
        q.is_valid(),
    ensures
        q.after_finish(result, now).is_valid(),
{
    let after = q.after_finish(result, now);
    if q.running is Some {
        assert forall|other: Seq<char>| #[trigger]
            after.records.dom().contains(other) && after.records[other].status
                == ProcessingStatus::Accepted implies after.is_pending(other) by {
            assert(q.records.dom().contains(other));
            assert(q.is_pending(other));
        }
        assert forall|other: Seq<char>| #[trigger]
            after.records.dom().contains(other) implies after.records[other].is_consistent() by {
            assert(q.records.dom().contains(other));
        }
        assert forall|other: Seq<char>| #[trigger]
            after.records.dom().contains(other) implies after.records[other].status
            != ProcessingStatus::InProgress by {
            assert(q.records.dom().contains(other));
        }
    }
}

/// The reaper's sweep keeps the pipeline valid.
pub proof fn lemma_cleanup_keeps_valid<L>(q: QueueView<L>, now: u64, retention: u64)
    requires
        q.is_valid(),
    ensures
        q.after_cleanup(now, retention).is_valid(),
{
    let after = q.after_cleanup(now, retention);
    vstd::set_lib::lemma_len_subset(after.records.dom(), q.records.dom());
    assert forall|other: Seq<char>| #[trigger]
        after.records.dom().contains(other) && after.records[other].status
            == ProcessingStatus::Accepted implies after.is_pending(other) by {
        assert(q.records.dom().contains(other));
        assert(q.is_pending(other));
    }
    assert forall|other: Seq<char>| #[trigger]
        after.records.dom().contains(other) implies after.records[other].is_consistent() by {
        assert(q.records.dom().contains(other));
    }
    assert forall|other: Seq<char>| #[trigger]
        after.records.dom().contains(other) && after.records[other].status
            == ProcessingStatus::InProgress implies after.running == Some(other) by {
        assert(q.records.dom().contains(other));
    }
}

/// Where every record carries one of the four stored statuses, the counts by
/// status add up to the number of records.
pub proof fn lemma_statuses_partition(records: Map<Seq<char>, RecordView>)
    requires
        records.dom().finite(),
        forall|id: Seq<char>| #[trigger]
            records.dom().contains(id) ==> records[id].status != ProcessingStatus::NotFound,
    ensures
        records.dom().len() == ids_with(records, ProcessingStatus::Accepted).len() + ids_with(
            records,
            ProcessingStatus::InProgress,
        ).len() + ids_with(records, ProcessingStatus::Completed).len() + ids_with(
            records,
            ProcessingStatus::Failed,
        ).len(),
{
    let a = ids_with(records, ProcessingStatus::Accepted);
    let b = ids_with(records, ProcessingStatus::InProgress);
    let c = ids_with(records, ProcessingStatus::Completed);
    let d = ids_with(records, ProcessingStatus::Failed);
    let dom = records.dom();
    vstd::set_lib::lemma_len_subset(a, dom);
    vstd::set_lib::lemma_len_subset(b, dom);
    vstd::set_lib::lemma_len_subset(c, dom);
    vstd::set_lib::lemma_len_subset(d, dom);
    vstd::set_lib::lemma_set_disjoint_lens(a, b);
    vstd::set_lib::lemma_set_disjoint_lens(a + b, c);
    vstd::set_lib::lemma_set_disjoint_lens(a + b + c, d);
    assert(a + b + c + d =~= dom);
}

} // verus!
