//! Aggregation of worker results into the final report of a run.
//!
//! The orchestrator launches one worker task per connection, awaits every
//! task to completion, and folds the outcomes into a single count of
//! successful requests. A worker that failed to connect, and a task that
//! failed outright, both contribute zero to that count — the report does not
//! distinguish the two from a worker that succeeded with zero requests.

use vstd::prelude::*;

use crate::worker::ConnectError;
use crate::worker::WorkerEvent;
use crate::worker::WorkerState;
use crate::worker::lemma_all_success_completes_all;
use crate::worker::lemma_run_worker_wf;
use crate::worker::run_worker;
use crate::worker::success_trace;

verus! {

/// What the orchestrator sees of one launched worker task once it has been
/// awaited.
#[derive(Debug, Clone, Copy, PartialEq, Eq)]
pub enum TaskOutcome {
    /// The task ran to completion and returned the worker's result.
    Completed(Result<usize, ConnectError>),
    /// The task itself failed: it panicked or was cancelled.
    Failed,
}

/// The number of successful requests one task outcome contributes to the
/// total: a completed worker contributes its count, and every failure —
/// of the connection or of the task — contributes zero.
pub open spec fn outcome_value(outcome: TaskOutcome) -> nat {
    match outcome {
        TaskOutcome::Completed(Ok(n)) => n as nat,
        _ => 0,
    }
}

/// The total number of successful requests over a sequence of task
/// outcomes.
pub open spec fn sum_successes(outcomes: Seq<TaskOutcome>) -> nat
    decreases outcomes.len(),
{
    if outcomes.len() == 0 {
        0
    } else {
        sum_successes(outcomes.drop_last()) + outcome_value(outcomes.last())
    }
}

/// Every outcome in the sequence respects the per-worker bound: no worker
/// reports more successful cycles than the `requests` it was asked to run.
pub open spec fn outcomes_wf(outcomes: Seq<TaskOutcome>, requests: usize) -> bool {
    forall|i: int| 0 <= i < outcomes.len() ==> outcome_value(outcomes[i]) <= requests
}

/// The sum over a prefix never exceeds the sum over the whole sequence.
proof fn lemma_sum_prefix_le(outcomes: Seq<TaskOutcome>, i: int)
    requires
        0 <= i <= outcomes.len(),
    ensures
        sum_successes(outcomes.take(i)) <= sum_successes(outcomes),
    decreases outcomes.len() - i,
{
    if i == outcomes.len() {
        assert(outcomes.take(i) =~= outcomes);
    } else {
        assert(outcomes.take(i + 1).drop_last() =~= outcomes.take(i));
        assert(outcomes.take(i + 1).last() == outcomes[i]);
        lemma_sum_prefix_le(outcomes, i + 1);
    }
}

/// Folds the outcomes of all worker tasks, in the order the workers were
/// launched, into the total number of successful requests.
pub fn aggregate_successes(outcomes: &Vec<TaskOutcome>) -> (total: usize)
    requires
        sum_successes(outcomes@) <= usize::MAX,
    ensures
        total == sum_successes(outcomes@),
{
    let mut total: usize = 0;
    let mut i: usize = 0;
    while i < outcomes.len()
        invariant
            i <= outcomes@.len(),
            total == sum_successes(outcomes@.take(i as int)),
            sum_successes(outcomes@) <= usize::MAX,
        decreases outcomes@.len() - i,
    {
        proof {
            assert(outcomes@.take(i + 1).drop_last() =~= outcomes@.take(i as int));
            assert(outcomes@.take(i + 1).last() == outcomes@[i as int]);
            lemma_sum_prefix_le(outcomes@, i + 1);
        }
        match outcomes[i] {
            TaskOutcome::Completed(Ok(n)) => {
                total = total + n;
            },
            _ => {},
        }
        i = i + 1;
    }
    proof {
        assert(outcomes@.take(outcomes@.len() as int) =~= outcomes@);
    }
    total
}

/// The total never exceeds the planned number of requests: with one outcome
/// per connection, each counting at most `requests` cycles, the sum of
/// successful requests lies between zero and `connections * requests`.
pub proof fn lemma_successes_within_planned(
    outcomes: Seq<TaskOutcome>,
    connections: usize,
    requests: usize,
)
    requires
        outcomes.len() == connections,
        outcomes_wf(outcomes, requests),
    ensures
        sum_successes(outcomes) <= connections * requests,
    decreases outcomes.len(),
{
    if outcomes.len() > 0 {
        let shorter = outcomes.drop_last();
        assert forall|i: int| 0 <= i < shorter.len() implies outcome_value(shorter[i])
            <= requests by {
            assert(shorter[i] == outcomes[i]);
        }
        lemma_successes_within_planned(shorter, (connections - 1) as usize, requests);
        assert(outcome_value(outcomes.last()) <= requests);
        assert((connections - 1) * requests + requests == connections * requests)
            by (nonlinear_arith);
    }
}

/// The total number of requests a run plans to perform: one per request
/// cycle over every connection.
pub fn planned_requests(connections: usize, requests: usize) -> (planned: usize)
    requires
        connections * requests <= usize::MAX,
    ensures
        planned == connections * requests,
{
    connections * requests
}

/// The final report of a run: how many requests were planned, and how many
/// of them succeeded.
#[derive(Debug, Clone, Copy, PartialEq, Eq)]
pub struct RunReport {
    /// The planned number of requests, `connections * requests`.
    pub planned_requests: usize,
    /// The number of request cycles that fully succeeded, over all workers.
    pub successful_requests: usize,
}

/// Builds the final report from the configuration of the run and the
/// outcome of every worker task. The successful count never exceeds the
/// planned count.
pub fn build_report(
    connections: usize,
    requests: usize,
    outcomes: &Vec<TaskOutcome>,
) -> (report: RunReport)
    requires
        connections * requests <= usize::MAX,
        outcomes@.len() == connections,
        outcomes_wf(outcomes@, requests),
    ensures
        report.planned_requests == connections * requests,
        report.successful_requests == sum_successes(outcomes@),
        report.successful_requests <= report.planned_requests,
{
    proof {
        lemma_successes_within_planned(outcomes@, connections, requests);
    }
    let planned: usize = planned_requests(connections, requests);
    let successful: usize = aggregate_successes(outcomes);
    RunReport { planned_requests: planned, successful_requests: successful }
}

/// An outcome that carries no success count — a worker that failed to
/// connect, or a task that failed — adds exactly nothing to the total.
pub proof fn lemma_failure_adds_nothing(outcomes: Seq<TaskOutcome>, outcome: TaskOutcome)
    requires
        !(outcome matches TaskOutcome::Completed(Ok(_))),
    ensures
        sum_successes(outcomes.push(outcome)) == sum_successes(outcomes),
{
    assert(outcomes.push(outcome).drop_last() =~= outcomes);
}

/// The outcomes of a run in which every one of the `connections` workers
/// completed all of its `requests` cycles.
pub open spec fn all_success_outcomes(connections: usize, requests: usize) -> Seq<TaskOutcome> {
    Seq::new(connections as nat, |i: int| TaskOutcome::Completed(Ok(requests)))
}

/// When every one of the `connections` workers completes all of its
/// `requests` cycles, the total equals the planned number of requests.
pub proof fn lemma_all_success_sum(connections: usize, requests: usize)
    ensures
        sum_successes(all_success_outcomes(connections, requests)) == connections * requests,
    decreases connections,
{
    let s = all_success_outcomes(connections, requests);
    if connections == 0 {
        assert(s.len() == 0);
    } else {
        lemma_all_success_sum((connections - 1) as usize, requests);
        let prev = all_success_outcomes((connections - 1) as usize, requests);
        assert(s.drop_last() =~= prev);
        assert(s.last() == TaskOutcome::Completed(Ok(requests)));
        assert((connections - 1) * requests + requests == connections * requests)
            by (nonlinear_arith);
    }
}

/// The outcome the orchestrator folds in for a worker whose task delivered
/// the state its events led to. A worker that never finished corresponds to
/// a task that failed, and contributes zero either way.
pub open spec fn worker_outcome(
    events: Seq<WorkerEvent>,
    requests: usize,
    write_only: bool,
) -> TaskOutcome {
    match run_worker(events, requests, write_only) {
        WorkerState::Done { result } => TaskOutcome::Completed(result),
        _ => TaskOutcome::Failed,
    }
}

/// Whatever events a worker saw, the outcome the orchestrator folds in
/// contributes at most `requests` to the total — so a run over any set of
/// worker traces keeps `successful_requests` within `[0, planned_requests]`.
pub proof fn lemma_worker_outcome_bounded(
    events: Seq<WorkerEvent>,
    requests: usize,
    write_only: bool,
)
    ensures
        outcome_value(worker_outcome(events, requests, write_only)) <= requests,
{
    lemma_run_worker_wf(events, requests, write_only);
}

/// The outcomes of a whole run in which worker `w` saw the connection
/// establish and all of its cycles succeed, the response of its cycle `i`
/// carrying `reads[w][i]` bytes.
pub open spec fn all_success_run_outcomes(
    connections: usize,
    requests: usize,
    write_only: bool,
    reads: Seq<Seq<usize>>,
) -> Seq<TaskOutcome> {
    Seq::new(
        connections as nat,
        |w: int| worker_outcome(
            success_trace(requests as nat, write_only, reads[w]),
            requests,
            write_only,
        ),
    )
}

/// If every connection establishes and every write and read succeeds, the
/// run completes every planned request: the fold over all worker outcomes
/// equals `connections * requests`, whatever the response sizes were.
pub proof fn lemma_all_success_run(
    connections: usize,
    requests: usize,
    write_only: bool,
    reads: Seq<Seq<usize>>,
)
    requires
        reads.len() >= connections,
        forall|w: int| 0 <= w < connections ==> (#[trigger] reads[w]).len() >= requests,
        forall|w: int, i: int|
            0 <= w < connections && 0 <= i < requests ==> #[trigger] reads[w][i] >= 1,
    ensures
        all_success_run_outcomes(connections, requests, write_only, reads)
            == all_success_outcomes(connections, requests),
        sum_successes(all_success_run_outcomes(connections, requests, write_only, reads))
            == connections * requests,
{
    let outcomes = all_success_run_outcomes(connections, requests, write_only, reads);
    assert forall|w: int| 0 <= w < connections implies outcomes[w] == TaskOutcome::Completed(
        Ok(requests),
    ) by {
        lemma_all_success_completes_all(requests, write_only, reads[w]);
    }
    assert(outcomes =~= all_success_outcomes(connections, requests));
    lemma_all_success_sum(connections, requests);
}

/// Running the tool twice with identical configuration against an
/// always-succeeding endpoint yields the same worker outcomes and the same
/// successful request count — the response sizes, the one thing that may
/// differ between the runs, do not enter the report.
pub proof fn lemma_identical_runs_agree(
    connections: usize,
    requests: usize,
    write_only: bool,
    reads_first: Seq<Seq<usize>>,
    reads_second: Seq<Seq<usize>>,
)
    requires
        reads_first.len() >= connections,
        reads_second.len() >= connections,
        forall|w: int| 0 <= w < connections ==> (#[trigger] reads_first[w]).len() >= requests,
        forall|w: int| 0 <= w < connections ==> (#[trigger] reads_second[w]).len() >= requests,
        forall|w: int, i: int|
            0 <= w < connections && 0 <= i < requests ==> #[trigger] reads_first[w][i] >= 1,
        forall|w: int, i: int|
            0 <= w < connections && 0 <= i < requests ==> #[trigger] reads_second[w][i] >= 1,
    ensures
        all_success_run_outcomes(connections, requests, write_only, reads_first)
            == all_success_run_outcomes(connections, requests, write_only, reads_second),
        sum_successes(all_success_run_outcomes(connections, requests, write_only, reads_first))
            == sum_successes(
            all_success_run_outcomes(connections, requests, write_only, reads_second),
        ),
{
    lemma_all_success_run(connections, requests, write_only, reads_first);
    lemma_all_success_run(connections, requests, write_only, reads_second);
}

} // verus!
