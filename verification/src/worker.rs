//! The connection worker, modelled as a state machine.
//!
//! A worker owns one connection end-to-end: it establishes the connection,
//! performs up to `requests` request cycles against it, counts the cycles
//! that fully succeed, and finishes with that count (or with a connection
//! error if establishment failed).
//!
//! The machine itself is pure and fully verified. The driver that owns the
//! actual socket asks the machine for the next action ([`WorkerState::next_action`]),
//! performs it, and reports the outcome back as a [`WorkerEvent`] through
//! [`WorkerState::step`]. The machine never looks at the bytes of a response:
//! any non-empty read counts as a valid response.

use vstd::prelude::*;

verus! {

/// Failure to establish the transport connection for a worker. Fatal to that
/// worker only: it finishes at once with zero successful requests.
#[derive(Debug, Clone, Copy, PartialEq, Eq)]
pub struct ConnectError;

/// The outcome of one I/O operation, reported back to the state machine by
/// the driver that performed it.
#[derive(Debug, Clone, Copy, PartialEq, Eq)]
pub enum WorkerEvent {
    /// The connection attempt finished; `ok` says whether it succeeded.
    Connected { ok: bool },
    /// The write of the request payload finished; `ok` says whether it
    /// succeeded.
    Wrote { ok: bool },
    /// The read of a response finished: `None` on a read error, otherwise
    /// the number of bytes read, zero meaning the peer closed the connection.
    ReadDone { bytes: Option<usize> },
}

/// The next I/O operation the worker asks its driver to perform.
#[derive(Debug, Clone, Copy, PartialEq, Eq)]
pub enum WorkerAction {
    /// Establish the connection to the endpoint.
    Connect,
    /// Write the fixed request payload to the connection.
    Write,
    /// Read a response from the connection.
    Read,
    /// The worker is finished; release the connection and report its result.
    Stop,
}

/// The state of one connection worker.
#[derive(Debug, Clone, Copy, PartialEq, Eq)]
pub enum WorkerState {
    /// Waiting for the connection attempt to finish.
    Connecting,
    /// `completed` request cycles have fully succeeded; the worker is about
    /// to write the payload of the next cycle.
    Writing { completed: usize },
    /// The write of the current cycle succeeded; the worker is waiting for a
    /// response. Never reached in write-only mode.
    Reading { completed: usize },
    /// The worker is finished: either with the number of cycles that fully
    /// succeeded, or with a connection error.
    Done { result: Result<usize, ConnectError> },
}

/// The state entered once `completed + 1` cycles have succeeded: either the
/// next cycle begins, or every planned cycle is done.
pub open spec fn spec_advance(completed: usize, requests: usize) -> WorkerState {
    if completed + 1 < requests {
        WorkerState::Writing { completed: (completed + 1) as usize }
    } else {
        WorkerState::Done { result: Ok(requests) }
    }
}

/// One transition of the worker state machine. An event that does not answer
/// the operation the state is waiting for leaves the state unchanged, and a
/// finished worker stays finished.
pub open spec fn spec_step(
    state: WorkerState,
    event: WorkerEvent,
    requests: usize,
    write_only: bool,
) -> WorkerState {
    match state {
        WorkerState::Connecting => match event {
            WorkerEvent::Connected { ok } => {
                if !ok {
                    WorkerState::Done { result: Err(ConnectError) }
                } else if requests == 0 {
                    WorkerState::Done { result: Ok(0usize) }
                } else {
                    WorkerState::Writing { completed: 0usize }
                }
            },
            _ => state,
        },
        WorkerState::Writing { completed } => match event {
            WorkerEvent::Wrote { ok } => {
                if !ok {
                    WorkerState::Done { result: Ok(completed) }
                } else if write_only {
                    spec_advance(completed, requests)
                } else {
                    WorkerState::Reading { completed }
                }
            },
            _ => state,
        },
        WorkerState::Reading { completed } => match event {
            WorkerEvent::ReadDone { bytes } => match bytes {
                Some(n) => {
                    if n == 0 {
                        WorkerState::Done { result: Ok(completed) }
                    } else {
                        spec_advance(completed, requests)
                    }
                },
                None => WorkerState::Done { result: Ok(completed) },
            },
            _ => state,
        },
        WorkerState::Done { .. } => state,
    }
}

/// The I/O operation a worker in the given state asks its driver to perform.
pub open spec fn spec_action(state: WorkerState) -> WorkerAction {
    match state {
        WorkerState::Connecting => WorkerAction::Connect,
        WorkerState::Writing { .. } => WorkerAction::Write,
        WorkerState::Reading { .. } => WorkerAction::Read,
        WorkerState::Done { .. } => WorkerAction::Stop,
    }
}

/// The state a worker reaches from its initial state after the given
/// sequence of events.
pub open spec fn run_worker(events: Seq<WorkerEvent>, requests: usize, write_only: bool) -> WorkerState
    decreases events.len(),
{
    if events.len() == 0 {
        WorkerState::Connecting
    } else {
        spec_step(
            run_worker(events.drop_last(), requests, write_only),
            events.last(),
            requests,
            write_only,
        )
    }
}

impl WorkerState {
    /// Validity of a worker state with respect to the configured number of
    /// requests per connection: the completed-cycle count of an unfinished
    /// worker stays below it, and a finished worker never counts more cycles
    /// than were planned.
    pub open spec fn wf(self, requests: usize) -> bool {
        match self {
            WorkerState::Connecting => true,
            WorkerState::Writing { completed } => completed < requests,
            WorkerState::Reading { completed } => completed < requests,
            WorkerState::Done { result } => match result {
                Ok(n) => n <= requests,
                Err(_) => true,
            },
        }
    }

    /// A worker starts out waiting for its connection attempt.
    pub fn initial() -> (state: WorkerState)
        ensures
            state == WorkerState::Connecting,
            forall|requests: usize| state.wf(requests),
    {
        WorkerState::Connecting
    }

    /// The I/O operation the driver must perform next in this state.
    pub fn next_action(&self) -> (action: WorkerAction)
        ensures
            action == spec_action(*self),
    {
        match self {
            WorkerState::Connecting => WorkerAction::Connect,
            WorkerState::Writing { .. } => WorkerAction::Write,
            WorkerState::Reading { .. } => WorkerAction::Read,
            WorkerState::Done { .. } => WorkerAction::Stop,
        }
    }

    /// Advances the worker by one transition on the outcome of the operation
    /// it asked for. Validity of the state is preserved.
    pub fn step(self, event: WorkerEvent, requests: usize, write_only: bool) -> (next: WorkerState)
        ensures
            next == spec_step(self, event, requests, write_only),
            self.wf(requests) ==> next.wf(requests),
    {
        match self {
            WorkerState::Connecting => match event {
                WorkerEvent::Connected { ok } => {
                    if !ok {
                        WorkerState::Done { result: Err(ConnectError) }
                    } else if requests == 0 {
                        WorkerState::Done { result: Ok(0) }
                    } else {
                        WorkerState::Writing { completed: 0 }
                    }
                },
                _ => self,
            },
            WorkerState::Writing { completed } => match event {
                WorkerEvent::Wrote { ok } => {
                    if !ok {
                        WorkerState::Done { result: Ok(completed) }
                    } else if write_only {
                        advance(completed, requests)
                    } else {
                        WorkerState::Reading { completed }
                    }
                },
                _ => self,
            },
            WorkerState::Reading { completed } => match event {
                WorkerEvent::ReadDone { bytes } => match bytes {
                    Some(n) => {
                        if n == 0 {
                            WorkerState::Done { result: Ok(completed) }
                        } else {
                            advance(completed, requests)
                        }
                    },
                    None => WorkerState::Done { result: Ok(completed) },
                },
                _ => self,
            },
            WorkerState::Done { .. } => self,
        }
    }
}

/// Moves a worker past a fully successful cycle without overflowing the
/// completed-cycle counter.
fn advance(completed: usize, requests: usize) -> (next: WorkerState)
    ensures
        next == spec_advance(completed, requests),
{
    if completed >= requests {
        WorkerState::Done { result: Ok(requests) }
    } else if completed + 1 < requests {
        WorkerState::Writing { completed: completed + 1 }
    } else {
        WorkerState::Done { result: Ok(requests) }
    }
}

/// Every state reached from the initial state is valid: a worker never
/// counts more completed cycles than it was asked to run.
pub proof fn lemma_run_worker_wf(events: Seq<WorkerEvent>, requests: usize, write_only: bool)
    ensures
        run_worker(events, requests, write_only).wf(requests),
    decreases events.len(),
{
    if events.len() > 0 {
        lemma_run_worker_wf(events.drop_last(), requests, write_only);
    }
}

/// In write-only mode the response-read logic is never invoked: no reachable
/// state waits for a response, and the driver is never asked to read.
pub proof fn lemma_write_only_never_reads(events: Seq<WorkerEvent>, requests: usize)
    ensures
        !(run_worker(events, requests, true) is Reading),
        spec_action(run_worker(events, requests, true)) != WorkerAction::Read,
    decreases events.len(),
{
    if events.len() > 0 {
        lemma_write_only_never_reads(events.drop_last(), requests);
    }
}

/// A worker whose connection attempt fails finishes at once with a
/// connection error, and no request cycle is ever attempted for it:
/// whatever events follow, the state stays finished and the driver is only
/// ever asked to stop.
pub proof fn lemma_connect_failure_does_no_work(
    events: Seq<WorkerEvent>,
    requests: usize,
    write_only: bool,
)
    requires
        events.len() >= 1,
        events[0] == (WorkerEvent::Connected { ok: false }),
    ensures
        run_worker(events, requests, write_only) == (WorkerState::Done {
            result: Err(ConnectError),
        }),
        spec_action(run_worker(events, requests, write_only)) == WorkerAction::Stop,
    decreases events.len(),
{
    if events.len() == 1 {
        assert(events.drop_last() =~= Seq::<WorkerEvent>::empty());
    } else {
        assert(events.drop_last()[0] == events[0]);
        lemma_connect_failure_does_no_work(events.drop_last(), requests, write_only);
    }
}

/// A worker whose write fails when exactly `k` cycles have completed
/// finishes with `k` as its successful count: the cycles counted before the
/// failure remain counted, and nothing more is added.
pub proof fn lemma_write_failure_keeps_partial_count(
    events: Seq<WorkerEvent>,
    requests: usize,
    write_only: bool,
    k: usize,
)
    requires
        run_worker(events, requests, write_only) == (WorkerState::Writing { completed: k }),
    ensures
        run_worker(events.push(WorkerEvent::Wrote { ok: false }), requests, write_only)
            == (WorkerState::Done { result: Ok(k) }),
{
    let extended = events.push(WorkerEvent::Wrote { ok: false });
    assert(extended.drop_last() =~= events);
}

/// A worker whose read fails, or that reads zero bytes because the peer
/// closed the connection, when exactly `k` cycles have completed finishes
/// with `k` as its successful count.
pub proof fn lemma_read_failure_keeps_partial_count(
    events: Seq<WorkerEvent>,
    requests: usize,
    write_only: bool,
    k: usize,
    bytes: Option<usize>,
)
    requires
        run_worker(events, requests, write_only) == (WorkerState::Reading { completed: k }),
        bytes matches Some(n) ==> n == 0,
    ensures
        run_worker(events.push(WorkerEvent::ReadDone { bytes }), requests, write_only)
            == (WorkerState::Done { result: Ok(k) }),
{
    let extended = events.push(WorkerEvent::ReadDone { bytes });
    assert(extended.drop_last() =~= events);
}

/// The events of one fully successful request cycle: the write succeeds
/// and, unless the run is write-only, a response of `bytes` bytes arrives.
pub open spec fn success_cycle(write_only: bool, bytes: usize) -> Seq<WorkerEvent> {
    if write_only {
        seq![WorkerEvent::Wrote { ok: true }]
    } else {
        seq![WorkerEvent::Wrote { ok: true }, WorkerEvent::ReadDone { bytes: Some(bytes) }]
    }
}

/// A trace in which the connection is established and the first `k` request
/// cycles all succeed, the response of cycle `i` carrying `reads[i]` bytes.
pub open spec fn success_trace(k: nat, write_only: bool, reads: Seq<usize>) -> Seq<WorkerEvent>
    decreases k,
{
    if k == 0 {
        seq![WorkerEvent::Connected { ok: true }]
    } else {
        success_trace((k - 1) as nat, write_only, reads) + success_cycle(
            write_only,
            reads[k - 1],
        )
    }
}

/// After the connection is established and `k` of the planned cycles have
/// succeeded, the worker is about to write cycle `k`, or is finished with
/// the full count once no cycle is left.
proof fn lemma_success_trace_reaches(
    k: usize,
    requests: usize,
    write_only: bool,
    reads: Seq<usize>,
)
    requires
        k <= requests,
        reads.len() >= requests,
        forall|i: int| 0 <= i < requests ==> reads[i] >= 1,
    ensures
        k < requests ==> run_worker(success_trace(k as nat, write_only, reads), requests, write_only)
            == (WorkerState::Writing { completed: k }),
        k == requests ==> run_worker(
            success_trace(k as nat, write_only, reads),
            requests,
            write_only,
        ) == (WorkerState::Done { result: Ok(requests) }),
    decreases k,
{
    let trace = success_trace(k as nat, write_only, reads);
    if k == 0 {
        assert(trace.drop_last() =~= Seq::<WorkerEvent>::empty());
        assert(run_worker(Seq::<WorkerEvent>::empty(), requests, write_only)
            == WorkerState::Connecting);
        assert(trace.last() == (WorkerEvent::Connected { ok: true }));
        assert(run_worker(trace, requests, write_only) == spec_step(
            WorkerState::Connecting,
            WorkerEvent::Connected { ok: true },
            requests,
            write_only,
        ));
    } else {
        lemma_success_trace_reaches((k - 1) as usize, requests, write_only, reads);
        let prev = success_trace((k - 1) as nat, write_only, reads);
        let before = run_worker(prev, requests, write_only);
        assert(before == (WorkerState::Writing { completed: (k - 1) as usize }));
        let wrote = WorkerEvent::Wrote { ok: true };
        assert(trace == prev + success_cycle(write_only, reads[k - 1]));
        if write_only {
            assert(trace =~= prev.push(wrote));
            assert(trace.drop_last() =~= prev);
            assert(trace.last() == wrote);
            assert(run_worker(trace, requests, write_only) == spec_step(
                before,
                wrote,
                requests,
                write_only,
            ));
        } else {
            let read = WorkerEvent::ReadDone { bytes: Some(reads[k - 1]) };
            let mid = prev.push(wrote);
            assert(trace =~= mid.push(read));
            assert(trace.drop_last() =~= mid);
            assert(trace.last() == read);
            assert(mid.drop_last() =~= prev);
            assert(mid.last() == wrote);
            assert(run_worker(mid, requests, write_only) == spec_step(
                before,
                wrote,
                requests,
                write_only,
            ));
            assert(run_worker(trace, requests, write_only) == spec_step(
                run_worker(mid, requests, write_only),
                read,
                requests,
                write_only,
            ));
            assert(reads[k - 1] >= 1);
        }
    }
}

/// If the connection establishes and every write and read succeeds, the
/// worker completes every planned request cycle: its final count equals
/// `requests`, whatever the sizes of the responses were.
pub proof fn lemma_all_success_completes_all(
    requests: usize,
    write_only: bool,
    reads: Seq<usize>,
)
    requires
        reads.len() >= requests,
        forall|i: int| 0 <= i < requests ==> reads[i] >= 1,
    ensures
        run_worker(success_trace(requests as nat, write_only, reads), requests, write_only)
            == (WorkerState::Done { result: Ok(requests) }),
{
    lemma_success_trace_reaches(requests, requests, write_only, reads);
}

/// The bytes of the fixed request payload: `ping` followed by a newline.
pub open spec fn ping_bytes() -> Seq<u8> {
    seq![112u8, 105u8, 110u8, 103u8, 10u8]
}

/// The fixed five-byte payload every worker writes once per request cycle.
pub fn ping_message() -> (msg: Vec<u8>)
    ensures
        msg@ == ping_bytes(),
        msg@.len() == 5,
{
    let mut msg: Vec<u8> = Vec::new();
    msg.push(112u8);
    msg.push(105u8);
    msg.push(110u8);
    msg.push(103u8);
    msg.push(10u8);
    proof {
        assert(msg@ =~= ping_bytes());
    }
    msg
}

} // verus!
