//! What holds of the pipeline over whole runs: statuses only move forward,
//! results and statuses go together, unknown ids stay unknown, a full queue
//! pushes back, shutdown may be repeated, no accepted job is lost, and jobs
//! are paced.

use crate::index::ids_with;
use crate::models::{
    ProcessingRequest, ProcessingStatus, ValidationResponseView, ValidationResultsView,
};
use crate::queue::{
    lemma_cleanup_keeps_valid, lemma_finish_keeps_valid, lemma_receive_keeps_valid,
    lemma_submit_keeps_valid, QueueError, QueueView,
};
use vstd::prelude::*;

verus! {

broadcast use vstd::set::group_set_axioms, vstd::map::group_map_axioms;

/// One operation on the pipeline that can change it.
pub enum Step<L> {
    /// A submission at a time.
    Submit { request: ProcessingRequest<L>, now: u64 },
    /// The worker asks for its next item.
    Receive { now: u64 },
    /// The job in progress ends, with a result or without.
    Finish { result: Option<ValidationResultsView>, now: u64 },
    /// The reaper sweeps.
    Cleanup { now: u64, retention: u64 },
    /// Shutdown begins.
    Shutdown,
}

/// The pipeline after one step.
pub open spec fn after<L>(q: QueueView<L>, step: Step<L>) -> QueueView<L> {
    match step {
        Step::Submit { request, now } => q.after_submit(request, now),
        Step::Receive { now } => q.after_receive(now),
        Step::Finish { result, now } => q.after_finish(result, now),
        Step::Cleanup { now, retention } => q.after_cleanup(now, retention),
        Step::Shutdown => q.after_shutdown(),
    }
}

/// The pipeline after a sequence of steps.
pub open spec fn run<L>(q: QueueView<L>, steps: Seq<Step<L>>) -> QueueView<L>
    decreases steps.len(),
{
    if steps.len() == 0 {
        q
    } else {
        after(run(q, steps.drop_last()), steps.last())
    }
}

/// How far along its life a status is.
pub open spec fn rank(status: ProcessingStatus) -> nat {
    match status {
        ProcessingStatus::NotFound => 0,
        ProcessingStatus::Accepted => 1,
        ProcessingStatus::InProgress => 2,
        ProcessingStatus::Completed => 3,
        ProcessingStatus::Failed => 3,
    }
}

/// The moves that a status can make in one step, staying put included:
/// unknown to accepted, accepted to in progress, in progress to completed or
/// failed.
pub open spec fn advances(before: ProcessingStatus, after: ProcessingStatus) -> bool {
    ||| before == after
    ||| before == ProcessingStatus::NotFound && after == ProcessingStatus::Accepted
    ||| before == ProcessingStatus::Accepted && after == ProcessingStatus::InProgress
    ||| before == ProcessingStatus::InProgress && after.is_terminal()
}

/// Every step keeps a valid pipeline valid.
pub proof fn lemma_step_keeps_valid<L>(q: QueueView<L>, step: Step<L>)
    requires
        q.is_valid(),
    ensures
        after(q, step).is_valid(),
{
    match step {
        Step::Submit { request, now } => lemma_submit_keeps_valid(q, request, now),
        Step::Receive { now } => lemma_receive_keeps_valid(q, now),
        Step::Finish { result, now } => lemma_finish_keeps_valid(q, result, now),
        Step::Cleanup { now, retention } => lemma_cleanup_keeps_valid(q, now, retention),
        Step::Shutdown => {},
    }
}

/// Every run keeps a valid pipeline valid.
pub proof fn lemma_run_keeps_valid<L>(q: QueueView<L>, steps: Seq<Step<L>>)
    requires
        q.is_valid(),
    ensures
        run(q, steps).is_valid(),
    decreases steps.len(),
{
    if steps.len() > 0 {
        lemma_run_keeps_valid(q, steps.drop_last());
        lemma_step_keeps_valid(run(q, steps.drop_last()), steps.last());
    }
}

/// In one step the status of a job makes one of the permitted moves, or a
/// sweep of the reaper removes the job; and a record in a terminal status is
/// never changed, only removed.
pub proof fn lemma_step_advances<L>(q: QueueView<L>, step: Step<L>, id: Seq<char>)
    requires
        q.is_valid(),
    ensures
        !(step is Cleanup) ==> advances(q.status_of(id), after(q, step).status_of(id)),
        step is Cleanup ==> after(q, step).status_of(id) == q.status_of(id) || after(
            q,
            step,
        ).status_of(id) == ProcessingStatus::NotFound,
        q.status_of(id).is_terminal() && after(q, step).records.dom().contains(id) ==> after(
            q,
            step,
        ).records[id] == q.records[id],
{
    if q.records.dom().contains(id) {
        assert(q.records[id].is_consistent());
    }
}

/// Statuses only move forward: over a run without sweeps of the reaper, the
/// status of a job never moves to an earlier one, and once terminal it stays
/// what it is.
pub proof fn lemma_status_never_goes_back<L>(q: QueueView<L>, steps: Seq<Step<L>>, id: Seq<char>)
    requires
        q.is_valid(),
        forall|k: int| 0 <= k < steps.len() ==> !(#[trigger] steps[k] is Cleanup),
    ensures
        rank(q.status_of(id)) <= rank(run(q, steps).status_of(id)),
        q.status_of(id).is_terminal() ==> run(q, steps).status_of(id) == q.status_of(id),
        q.status_of(id).is_terminal() ==> run(q, steps).records[id] == q.records[id],
    decreases steps.len(),
{
    if steps.len() > 0 {
        let head = steps.drop_last();
        assert forall|k: int| 0 <= k < head.len() implies !(#[trigger] head[k] is Cleanup) by {
            assert(head[k] == steps[k]);
        }
        lemma_status_never_goes_back(q, head, id);
        lemma_run_keeps_valid(q, head);
        lemma_step_advances(run(q, head), steps.last(), id);
    }
}

/// A result is stored exactly for the jobs whose status is `Completed`.
pub proof fn lemma_result_iff_completed<L>(q: QueueView<L>, id: Seq<char>)
    requires
        q.is_valid(),
    ensures
        q.result_of(id) is Some <==> q.status_of(id) == ProcessingStatus::Completed,
{
    if q.records.dom().contains(id) {
        assert(q.records[id].is_consistent());
    }
}

/// No id is made up: an id that is unknown and that no step of a run
/// submits is unknown after the run.
pub proof fn lemma_unsubmitted_stays_unknown<L>(
    q: QueueView<L>,
    steps: Seq<Step<L>>,
    id: Seq<char>,
)
    requires
        q.status_of(id) == ProcessingStatus::NotFound,
        forall|k: int|
            0 <= k < steps.len() && (#[trigger] steps[k]) is Submit
                ==> steps[k]->request.processing_id@ != id,
    ensures
        run(q, steps).status_of(id) == ProcessingStatus::NotFound,
    decreases steps.len(),
{
    if steps.len() > 0 {
        let head = steps.drop_last();
        assert forall|k: int|
            0 <= k < head.len() && (#[trigger] head[k]) is Submit implies head[k]->request.processing_id@
            != id by {
            assert(head[k] == steps[k]);
        }
        lemma_unsubmitted_stays_unknown(q, head, id);
        assert(steps.last() == steps[steps.len() - 1]);
    }
}

/// In a fresh pipeline every id is unknown.
pub proof fn lemma_fresh_pipeline_knows_no_id<L>(capacity: nat, permits: nat, id: Seq<char>)
    ensures
        QueueView::<L>::initial(capacity, permits).status_of(id) == ProcessingStatus::NotFound,
{
}

/// The pipeline after the submissions of a list, in order, each at its time.
pub open spec fn submit_all<L>(
    q: QueueView<L>,
    jobs: Seq<(ProcessingRequest<L>, u64)>,
) -> QueueView<L>
    decreases jobs.len(),
{
    if jobs.len() == 0 {
        q
    } else {
        submit_all(q, jobs.drop_last()).after_submit(jobs.last().0, jobs.last().1)
    }
}

/// Whether the jobs of a list carry ids that differ from each other and
/// that the pipeline does not track.
pub open spec fn fresh_ids<L>(q: QueueView<L>, jobs: Seq<(ProcessingRequest<L>, u64)>) -> bool {
    &&& forall|k: int|
        0 <= k < jobs.len() ==> !q.records.dom().contains((#[trigger] jobs[k]).0.processing_id@)
    &&& forall|j: int, k: int|
        0 <= j < jobs.len() && 0 <= k < jobs.len() && j != k ==> (
        #[trigger] jobs[j]).0.processing_id@ != (#[trigger] jobs[k]).0.processing_id@
}

proof fn lemma_submit_all_fills<L>(q: QueueView<L>, jobs: Seq<(ProcessingRequest<L>, u64)>)
    requires
        !q.closed,
        fresh_ids(q, jobs),
        q.pending.len() + jobs.len() <= q.capacity,
    ensures
        submit_all(q, jobs).pending.len() == q.pending.len() + jobs.len(),
        submit_all(q, jobs).capacity == q.capacity,
        !submit_all(q, jobs).closed,
        forall|id: Seq<char>|
            submit_all(q, jobs).records.dom().contains(id) <==> (q.records.dom().contains(id)
                || exists|k: int|
                0 <= k < jobs.len() && (#[trigger] jobs[k]).0.processing_id@ == id),
    decreases jobs.len(),
{
    if jobs.len() > 0 {
        let head = jobs.drop_last();
        assert(fresh_ids(q, head)) by {
            assert forall|k: int| 0 <= k < head.len() implies !q.records.dom().contains(
                (#[trigger] head[k]).0.processing_id@,
            ) by {
                assert(head[k] == jobs[k]);
            }
            assert forall|j: int, k: int|
                0 <= j < head.len() && 0 <= k < head.len() && j != k implies (
            #[trigger] head[j]).0.processing_id@ != (#[trigger] head[k]).0.processing_id@ by {
                assert(head[j] == jobs[j] && head[k] == jobs[k]);
            }
        }
        lemma_submit_all_fills(q, head);
        let mid = submit_all(q, head);
        let last = jobs.last();
        let id = last.0.processing_id@;
        assert(jobs[jobs.len() - 1] == last);
        assert(!mid.records.dom().contains(id)) by {
            if mid.records.dom().contains(id) {
                let k = choose|k: int|
                    0 <= k < head.len() && (#[trigger] head[k]).0.processing_id@ == id;
                assert(head[k] == jobs[k]);
            }
        }
        assert(mid.refusal(id) is None);
        let end = submit_all(q, jobs);
        assert forall|other: Seq<char>|
            end.records.dom().contains(other) <==> (q.records.dom().contains(other)
                || exists|k: int|
                0 <= k < jobs.len() && (#[trigger] jobs[k]).0.processing_id@ == other) by {
            if mid.records.dom().contains(other) && !q.records.dom().contains(other) {
                let k = choose|k: int|
                    0 <= k < head.len() && (#[trigger] head[k]).0.processing_id@ == other;
                assert(head[k] == jobs[k]);
            }
            if exists|k: int|
                0 <= k < jobs.len() && (#[trigger] jobs[k]).0.processing_id@ == other {
                let k = choose|k: int|
                    0 <= k < jobs.len() && (#[trigger] jobs[k]).0.processing_id@ == other;
                if k < head.len() {
                    assert(head[k] == jobs[k]);
                }
            }
        }
    }
}

/// Backpressure: into an open pipeline with an empty queue of capacity N,
/// while the worker takes nothing, N + 1 submissions under new ids go in
/// until the queue is full: the first N are admitted and the last one, and
/// only it, is refused with `QueueFull`.
pub proof fn lemma_backpressure<L>(q: QueueView<L>, jobs: Seq<(ProcessingRequest<L>, u64)>)
    requires
        q.is_valid(),
        !q.closed,
        q.pending.len() == 0,
        jobs.len() == q.capacity + 1,
        fresh_ids(q, jobs),
    ensures
        forall|k: int|
            0 <= k < q.capacity ==> submit_all(q, jobs.take(k)).refusal(
                (#[trigger] jobs[k]).0.processing_id@,
            ) is None,
        submit_all(q, jobs.take(q.capacity as int)).refusal(
            jobs[q.capacity as int].0.processing_id@,
        ) == Some(QueueError::QueueFull),
{
    assert forall|k: int| 0 <= k <= q.capacity implies {
        let mid = submit_all(q, jobs.take(k));
        &&& !mid.closed
        &&& mid.capacity == q.capacity
        &&& mid.pending.len() == k
        &&& !mid.records.dom().contains((#[trigger] jobs[k]).0.processing_id@)
    } by {
        let head = jobs.take(k);
        assert(fresh_ids(q, head)) by {
            assert forall|i: int| 0 <= i < head.len() implies !q.records.dom().contains(
                (#[trigger] head[i]).0.processing_id@,
            ) by {
                assert(head[i] == jobs[i]);
            }
            assert forall|i: int, j: int|
                0 <= i < head.len() && 0 <= j < head.len() && i != j implies (
            #[trigger] head[i]).0.processing_id@ != (#[trigger] head[j]).0.processing_id@ by {
                assert(head[i] == jobs[i] && head[j] == jobs[j]);
            }
        }
        lemma_submit_all_fills(q, head);
        let mid = submit_all(q, head);
        let id = jobs[k].0.processing_id@;
        if mid.records.dom().contains(id) {
            let i = choose|i: int|
                0 <= i < head.len() && (#[trigger] head[i]).0.processing_id@ == id;
            assert(head[i] == jobs[i]);
        }
    }
}

/// Shutdown may be repeated: a second shutdown leaves the pipeline as the
/// first one left it.
pub proof fn lemma_shutdown_is_idempotent<L>(q: QueueView<L>)
    ensures
        q.after_shutdown().after_shutdown() == q.after_shutdown(),
        forall|id: Seq<char>| q.after_shutdown().refusal(id) == Some(QueueError::QueueClosed),
{
}

/// Shutdown changes no record, no status and no result, and leaves the
/// queue to the worker.
pub proof fn lemma_shutdown_keeps_jobs<L>(q: QueueView<L>, id: Seq<char>)
    ensures
        q.after_shutdown().status_of(id) == q.status_of(id),
        q.after_shutdown().result_of(id) == q.result_of(id),
        q.after_shutdown().pending == q.pending,
        q.after_shutdown().running == q.running,
{
}

/// The result with which the job in progress ends is the result that is
/// served for it, reasons and all, for as long as the reaper leaves the
/// record.
pub proof fn lemma_result_is_kept<L>(
    q: QueueView<L>,
    results: ValidationResultsView,
    now: u64,
    steps: Seq<Step<L>>,
)
    requires
        q.is_valid(),
        q.running is Some,
        q.status_of(q.running->0) == ProcessingStatus::InProgress,
        forall|k: int| 0 <= k < steps.len() ==> !(#[trigger] steps[k] is Cleanup),
    ensures
        run(q.after_finish(Some(results), now), steps).result_of(q.running->0) == Some(
            ValidationResponseView { processing_id: q.running->0, results },
        ),
{
    let id = q.running->0;
    let done = q.after_finish(Some(results), now);
    lemma_finish_keeps_valid(q, Some(results), now);
    lemma_status_never_goes_back(done, steps, id);
}

/// One job at a time: at most one record is in progress, it is the record
/// of the job that the worker holds, and at most one permit of the rate gate
/// is taken.
pub proof fn lemma_one_job_at_a_time<L>(q: QueueView<L>)
    requires
        q.is_valid(),
    ensures
        ids_with(q.records, ProcessingStatus::InProgress).len() <= 1,
        q.running is None ==> ids_with(q.records, ProcessingStatus::InProgress).len() == 0,
        q.permits - 1 <= q.available_permits() <= q.permits,
{
    let busy = ids_with(q.records, ProcessingStatus::InProgress);
    match q.running {
        Some(id) => {
            assert(busy.subset_of(set![id]));
            vstd::set_lib::lemma_len_subset(busy, set![id]);
        },
        None => {
            assert(busy =~= Set::<Seq<char>>::empty());
        },
    }
}

/// No more jobs are accepted than wait in the queue: every accepted job has
/// its submission there.
pub proof fn lemma_accepted_within_queue_depth<L>(q: QueueView<L>)
    requires
        q.is_valid(),
    ensures
        ids_with(q.records, ProcessingStatus::Accepted).len() <= q.pending.len(),
{
    let accepted = ids_with(q.records, ProcessingStatus::Accepted);
    let waiting = q.pending.map_values(|r: ProcessingRequest<L>| r.processing_id@);
    vstd::seq_lib::seq_to_set_is_finite(waiting);
    assert forall|id: Seq<char>| accepted.contains(id) implies waiting.to_set().contains(id) by {
        assert(q.is_pending(id));
        let k = choose|k: int|
            0 <= k < q.pending.len() && (#[trigger] q.pending[k]).processing_id@ == id;
        assert(waiting[k] == id);
    }
    vstd::set_lib::lemma_len_subset(accepted, waiting.to_set());
    waiting.lemma_cardinality_of_set();
}

/// The time at which a step happens; a step without a time happens at the
/// time before it.
pub open spec fn time_of<L>(step: Step<L>, before: u64) -> u64 {
    match step {
        Step::Submit { request, now } => now,
        Step::Receive { now } => now,
        Step::Finish { result, now } => now,
        Step::Cleanup { now, retention } => now,
        Step::Shutdown => before,
    }
}

/// Whether every record has its times in order and none of them after
/// `now`.
pub open spec fn keeps_time<L>(q: QueueView<L>, now: u64) -> bool {
    forall|id: Seq<char>| #[trigger]
        q.records.dom().contains(id) ==> {
            let record = q.records[id];
            &&& record.is_ordered()
            &&& record.submitted_at <= now
            &&& (record.started_at is Some ==> record.started_at->0 <= now)
            &&& (record.completed_at is Some ==> record.completed_at->0 <= now)
        }
}

/// Under a clock that does not run backwards, the times of every record
/// stay in order: submitted, then started, then completed.
pub proof fn lemma_step_keeps_time<L>(q: QueueView<L>, step: Step<L>, before: u64)
    requires
        q.is_valid(),
        keeps_time(q, before),
        before <= time_of(step, before),
    ensures
        keeps_time(after(q, step), time_of(step, before)),
{
    let next = after(q, step);
    assert forall|id: Seq<char>| #[trigger] next.records.dom().contains(id) implies {
        let record = next.records[id];
        &&& record.is_ordered()
        &&& record.submitted_at <= time_of(step, before)
        &&& (record.started_at is Some ==> record.started_at->0 <= time_of(step, before))
        &&& (record.completed_at is Some ==> record.completed_at->0 <= time_of(step, before))
    } by {
        if q.records.dom().contains(id) {
            assert(q.records[id].is_consistent());
        }
    }
}

/// One turn of the worker: when its job ended and with what, and when it
/// asked for the next one.
pub struct Turn {
    pub result: Option<ValidationResultsView>,
    pub ended_at: u64,
    pub resumed_at: u64,
}

/// The pipeline after one turn of the worker: the job in progress, if there
/// is one, ends; then the worker asks for its next item.
pub open spec fn worker_turn<L>(q: QueueView<L>, turn: Turn) -> QueueView<L> {
    q.after_finish(turn.result, turn.ended_at).after_receive(turn.resumed_at)
}

/// The pipeline after the turns of a list, in order.
pub open spec fn worker_turns<L>(q: QueueView<L>, turns: Seq<Turn>) -> QueueView<L>
    decreases turns.len(),
{
    if turns.len() == 0 {
        q
    } else {
        worker_turns(worker_turn(q, turns[0]), turns.drop_first())
    }
}

/// Whether in each turn the worker asks for its next item only once the
/// pause after its job is over.
pub open spec fn waits_out_pauses<L>(q: QueueView<L>, turns: Seq<Turn>) -> bool
    decreases turns.len(),
{
    turns.len() == 0 || {
        &&& turns[0].resumed_at >= q.after_finish(turns[0].result, turns[0].ended_at).ready_at
        &&& waits_out_pauses(worker_turn(q, turns[0]), turns.drop_first())
    }
}

/// Whether the first submission under `id` in the queue stands at place
/// `place`, counted from the head.
pub open spec fn waits_at<L>(q: QueueView<L>, id: Seq<char>, place: int) -> bool {
    &&& 0 <= place < q.pending.len()
    &&& q.pending[place].processing_id@ == id
    &&& forall|j: int| 0 <= j < place ==> (#[trigger] q.pending[j]).processing_id@ != id
}

proof fn lemma_turn_keeps_valid<L>(q: QueueView<L>, turn: Turn)
    requires
        q.is_valid(),
    ensures
        worker_turn(q, turn).is_valid(),
{
    lemma_finish_keeps_valid(q, turn.result, turn.ended_at);
    lemma_receive_keeps_valid(q.after_finish(turn.result, turn.ended_at), turn.resumed_at);
}

proof fn lemma_turns_keep_terminal<L>(q: QueueView<L>, turns: Seq<Turn>, id: Seq<char>)
    requires
        q.is_valid(),
        q.status_of(id).is_terminal(),
    ensures
        worker_turns(q, turns).status_of(id) == q.status_of(id),
    decreases turns.len(),
{
    if turns.len() > 0 {
        let turn = turns[0];
        let finished = q.after_finish(turn.result, turn.ended_at);
        lemma_step_advances(q, Step::Finish { result: turn.result, now: turn.ended_at }, id);
        lemma_finish_keeps_valid(q, turn.result, turn.ended_at);
        lemma_step_advances(finished, Step::Receive { now: turn.resumed_at }, id);
        lemma_turn_keeps_valid(q, turn);
        lemma_turns_keep_terminal(worker_turn(q, turn), turns.drop_first(), id);
    }
}

/// No accepted job is lost: while the worker takes its turns, waits out its
/// pauses, and the reaper leaves the record alone, a job that waits at
/// place `place` of the queue has begun after `place + 1` turns and has
/// reached a terminal status after `place + 2`, however the jobs before it
/// end.
pub proof fn lemma_accepted_job_ends<L>(
    q: QueueView<L>,
    id: Seq<char>,
    place: int,
    turns: Seq<Turn>,
)
    requires
        q.is_valid(),
        q.status_of(id) == ProcessingStatus::Accepted,
        waits_at(q, id, place),
        turns.len() >= place + 2,
        waits_out_pauses(q, turns),
    ensures
        worker_turns(q, turns).status_of(id).is_terminal(),
    decreases place,
{
    let turn = turns[0];
    let next = worker_turn(q, turn);
    let rest = turns.drop_first();
    let finished = q.after_finish(turn.result, turn.ended_at);
    lemma_turn_keeps_valid(q, turn);
    assert(finished.status_of(id) == ProcessingStatus::Accepted);
    assert(finished.hands_out_job(turn.resumed_at));
    if place == 0 {
        assert(next.status_of(id) == ProcessingStatus::InProgress);
        assert(next.running == Some(id));
        let second = rest[0];
        let after_second = worker_turn(next, second);
        let ended = next.after_finish(second.result, second.ended_at);
        assert(ended.status_of(id).is_terminal());
        lemma_finish_keeps_valid(next, second.result, second.ended_at);
        lemma_step_advances(ended, Step::Receive { now: second.resumed_at }, id);
        assert(after_second.status_of(id).is_terminal());
        lemma_turn_keeps_valid(next, second);
        lemma_turns_keep_terminal(after_second, rest.drop_first(), id);
        assert(worker_turns(next, rest) == worker_turns(after_second, rest.drop_first()));
    } else {
        assert(q.pending[0].processing_id@ != id);
        assert(next.status_of(id) == ProcessingStatus::Accepted);
        assert(waits_at(next, id, place - 1)) by {
            assert(next.pending =~= q.pending.drop_first());
            assert forall|j: int| 0 <= j < place - 1 implies (
            #[trigger] next.pending[j]).processing_id@ != id by {
                assert(next.pending[j] == q.pending[j + 1]);
            }
        }
        lemma_accepted_job_ends(next, id, place - 1, rest);
    }
}

/// The times at which a run hands a job to the worker, in order.
pub open spec fn start_times<L>(q: QueueView<L>, steps: Seq<Step<L>>) -> Seq<u64>
    decreases steps.len(),
{
    if steps.len() == 0 {
        Seq::empty()
    } else {
        let earlier = start_times(q, steps.drop_last());
        match steps.last() {
            Step::Receive { now } => if run(q, steps.drop_last()).hands_out_job(now) {
                earlier.push(now)
            } else {
                earlier
            },
            _ => earlier,
        }
    }
}

/// The time at which a run ends that begins at `from`.
pub open spec fn end_time<L>(steps: Seq<Step<L>>, from: u64) -> u64
    decreases steps.len(),
{
    if steps.len() == 0 {
        from
    } else {
        time_of(steps.last(), end_time(steps.drop_last(), from))
    }
}

/// Whether the clock of a run does not run backwards from `from` on and
/// does not pass `until`.
pub open spec fn clock_runs_forward<L>(steps: Seq<Step<L>>, from: u64, until: u64) -> bool
    decreases steps.len(),
{
    if steps.len() == 0 {
        from <= until
    } else {
        &&& clock_runs_forward(steps.drop_last(), from, until)
        &&& end_time(steps.drop_last(), from) <= end_time(steps, from) <= until
    }
}

proof fn lemma_pace<L>(q: QueueView<L>, steps: Seq<Step<L>>, from: u64, until: u64)
    requires
        q.is_valid(),
        clock_runs_forward(steps, from, until),
        until + 60000 <= u64::MAX,
    ensures
        run(q, steps).is_valid(),
        run(q, steps).permits == q.permits,
        from <= end_time(steps, from) <= until,
        forall|k: int|
            0 <= k < start_times(q, steps).len() ==> #[trigger] start_times(q, steps)[k]
                <= end_time(steps, from),
        forall|k: int|
            0 <= k < start_times(q, steps).len() - 1 ==> #[trigger] start_times(q, steps)[k]
                + q.throttle_interval() <= start_times(q, steps)[k + 1],
        start_times(q, steps).len() > 0 && run(q, steps).running is None ==> start_times(
            q,
            steps,
        ).last() + q.throttle_interval() <= run(q, steps).ready_at,
    decreases steps.len(),
{
    if steps.len() > 0 {
        let head = steps.drop_last();
        let step = steps.last();
        lemma_pace(q, head, from, until);
        let before = run(q, head);
        lemma_step_keeps_valid(before, step);
        let earlier = start_times(q, head);
        let all = start_times(q, steps);
        let gap = q.throttle_interval();
        assert(0 <= gap <= 60000) by {
            vstd::arithmetic::div_mod::lemma_div_pos_is_pos(60000, q.permits as int);
            vstd::arithmetic::div_mod::lemma_div_is_ordered_by_denominator(
                60000,
                1,
                q.permits as int,
            );
        }
        assert(before.throttle_interval() == gap);
        match step {
            Step::Receive { now } => {
                if before.hands_out_job(now) {
                    assert(all == earlier.push(now));
                    assert forall|k: int| 0 <= k < all.len() - 1 implies #[trigger] all[k] + gap
                        <= all[k + 1] by {
                        if k < earlier.len() - 1 {
                            assert(all[k] == earlier[k] && all[k + 1] == earlier[k + 1]);
                        } else {
                            assert(all[k] == earlier.last());
                        }
                    }
                }
            },
            Step::Finish { result, now } => {
                assert(all == earlier);
                if before.running is Some && earlier.len() > 0 {
                    assert(earlier[earlier.len() - 1] <= end_time(head, from));
                }
            },
            _ => {},
        }
    }
}

/// Under a clock that does not run backwards, the times of every record
/// are in order after a run as they were before it.
pub proof fn lemma_run_keeps_time<L>(q: QueueView<L>, steps: Seq<Step<L>>, from: u64, until: u64)
    requires
        q.is_valid(),
        keeps_time(q, from),
        clock_runs_forward(steps, from, until),
    ensures
        keeps_time(run(q, steps), end_time(steps, from)),
    decreases steps.len(),
{
    if steps.len() > 0 {
        let head = steps.drop_last();
        lemma_run_keeps_time(q, head, from, until);
        lemma_run_keeps_valid(q, head);
        lemma_step_keeps_time(run(q, head), steps.last(), end_time(head, from));
    }
}

/// Jobs are paced: under a clock that does not run backwards, between the
/// times at which the worker gets two successive jobs lies at least the
/// throttle interval.
pub proof fn lemma_jobs_are_paced<L>(
    q: QueueView<L>,
    steps: Seq<Step<L>>,
    from: u64,
    until: u64,
    k: int,
)
    requires
        q.is_valid(),
        clock_runs_forward(steps, from, until),
        until + 60000 <= u64::MAX,
        0 <= k < start_times(q, steps).len() - 1,
    ensures
        start_times(q, steps)[k] + q.throttle_interval() <= start_times(q, steps)[k + 1],
{
    lemma_pace(q, steps, from, until);
}

proof fn lemma_spacing_adds_up(times: Seq<u64>, gap: int, i: int, j: int)
    requires
        forall|k: int| 0 <= k < times.len() - 1 ==> #[trigger] times[k] + gap <= times[k + 1],
        0 <= i <= j < times.len(),
    ensures
        times[i] + (j - i) * gap <= times[j],
    decreases j - i,
{
    if i < j {
        lemma_spacing_adds_up(times, gap, i, j - 1);
        assert((j - i) * gap == (j - 1 - i) * gap + gap) by (nonlinear_arith);
    } else {
        assert((j - i) * gap == 0) by (nonlinear_arith)
            requires
                j - i == 0,
        ;
    }
}

/// The rate cap: where the requests allowed per minute divide a minute into
/// whole milliseconds, and under a clock that does not run backwards, the
/// worker never gets more jobs within sixty seconds than are allowed per
/// minute: any job and the one that comes that many jobs after it start at
/// least sixty seconds apart.
pub proof fn lemma_rate_cap<L>(
    q: QueueView<L>,
    steps: Seq<Step<L>>,
    from: u64,
    until: u64,
    i: int,
    j: int,
)
    requires
        q.is_valid(),
        clock_runs_forward(steps, from, until),
        until + 60000 <= u64::MAX,
        60000int % (q.permits as int) == 0,
        0 <= i,
        i + q.permits <= j < start_times(q, steps).len(),
    ensures
        start_times(q, steps)[i] + 60000 <= start_times(q, steps)[j],
{
    lemma_pace(q, steps, from, until);
    let gap = q.throttle_interval();
    let rate = q.permits as int;
    lemma_spacing_adds_up(start_times(q, steps), gap, i, j);
    vstd::arithmetic::div_mod::lemma_fundamental_div_mod(60000, rate);
    assert(rate * gap == 60000);
    assert(gap >= 0) by {
        vstd::arithmetic::div_mod::lemma_div_pos_is_pos(60000, rate);
    }
    assert((j - i) * gap >= rate * gap) by (nonlinear_arith)
        requires
            j - i >= rate,
            gap >= 0,
    ;
}

} // verus!
