//! End-to-end scenarios driven through the worker state machine and the
//! report builder, with scripted I/O outcomes in place of a live endpoint.

use loadgen::report::build_report;
use loadgen::worker::ping_message;
use loadgen::Args;
use loadgen::ConnectError;
use loadgen::TaskOutcome;
use loadgen::WorkerAction;
use loadgen::WorkerEvent;
use loadgen::WorkerState;

/// Runs one worker over a scripted sequence of I/O outcomes and returns its
/// final state, checking along the way that a write-only worker never asks
/// to read.
fn drive(events: Vec<WorkerEvent>, requests: usize, write_only: bool) -> WorkerState {
    let mut state = WorkerState::initial();
    for event in events {
        if write_only {
            assert_ne!(state.next_action(), WorkerAction::Read);
        }
        state = state.step(event, requests, write_only);
    }
    state
}

/// The scripted events of a worker whose connection establishes and whose
/// every cycle succeeds with a one-byte response.
fn echo_events(requests: usize, write_only: bool) -> Vec<WorkerEvent> {
    let mut events = vec![WorkerEvent::Connected { ok: true }];
    for _ in 0..requests {
        events.push(WorkerEvent::Wrote { ok: true });
        if !write_only {
            events.push(WorkerEvent::ReadDone { bytes: Some(1) });
        }
    }
    events
}

#[test]
fn one_connection_three_echoed_requests() {
    let requests = 3;
    let state = drive(echo_events(requests, false), requests, false);
    assert_eq!(state, WorkerState::Done { result: Ok(3) });

    let outcomes = vec![TaskOutcome::Completed(Ok(3))];
    let report = build_report(1, requests, &outcomes);
    assert_eq!(report.planned_requests, 3);
    assert_eq!(report.successful_requests, 3);
}

#[test]
fn two_connections_five_write_only_requests() {
    let requests = 5;
    let mut outcomes = Vec::new();
    for _ in 0..2 {
        let state = drive(echo_events(requests, true), requests, true);
        match state {
            WorkerState::Done { result } => {
                assert_eq!(result, Ok(5));
                outcomes.push(TaskOutcome::Completed(result));
            }
            other => panic!("worker did not finish: {:?}", other),
        }
    }
    let report = build_report(2, requests, &outcomes);
    assert_eq!(report.planned_requests, 10);
    assert_eq!(report.successful_requests, 10);
}

#[test]
fn peer_closes_after_second_response() {
    let requests = 4;
    let events = vec![
        WorkerEvent::Connected { ok: true },
        WorkerEvent::Wrote { ok: true },
        WorkerEvent::ReadDone { bytes: Some(1) },
        WorkerEvent::Wrote { ok: true },
        WorkerEvent::ReadDone { bytes: Some(1) },
        WorkerEvent::Wrote { ok: true },
        WorkerEvent::ReadDone { bytes: Some(0) },
    ];
    let state = drive(events, requests, false);
    assert_eq!(state, WorkerState::Done { result: Ok(2) });

    let outcomes = vec![TaskOutcome::Completed(Ok(2))];
    let report = build_report(1, requests, &outcomes);
    assert_eq!(report.planned_requests, 4);
    assert_eq!(report.successful_requests, 2);
}

#[test]
fn all_connections_refused() {
    let requests = 1;
    let mut outcomes = Vec::new();
    for _ in 0..3 {
        let state = drive(vec![WorkerEvent::Connected { ok: false }], requests, false);
        assert_eq!(state, WorkerState::Done { result: Err(ConnectError) });
        match state {
            WorkerState::Done { result } => outcomes.push(TaskOutcome::Completed(result)),
            _ => unreachable!(),
        }
    }
    let report = build_report(3, requests, &outcomes);
    assert_eq!(report.planned_requests, 3);
    assert_eq!(report.successful_requests, 0);
}

#[test]
fn write_failure_keeps_partial_count() {
    let requests = 5;
    let events = vec![
        WorkerEvent::Connected { ok: true },
        WorkerEvent::Wrote { ok: true },
        WorkerEvent::ReadDone { bytes: Some(8) },
        WorkerEvent::Wrote { ok: true },
        WorkerEvent::ReadDone { bytes: Some(8) },
        WorkerEvent::Wrote { ok: false },
    ];
    let state = drive(events, requests, false);
    assert_eq!(state, WorkerState::Done { result: Ok(2) });
}

#[test]
fn read_error_keeps_partial_count() {
    let requests = 3;
    let events = vec![
        WorkerEvent::Connected { ok: true },
        WorkerEvent::Wrote { ok: true },
        WorkerEvent::ReadDone { bytes: Some(2) },
        WorkerEvent::Wrote { ok: true },
        WorkerEvent::ReadDone { bytes: None },
    ];
    let state = drive(events, requests, false);
    assert_eq!(state, WorkerState::Done { result: Ok(1) });
}

#[test]
fn failed_connection_ignores_later_events() {
    let requests = 2;
    let events = vec![
        WorkerEvent::Connected { ok: false },
        WorkerEvent::Wrote { ok: true },
        WorkerEvent::ReadDone { bytes: Some(1) },
    ];
    let state = drive(events, requests, false);
    assert_eq!(state, WorkerState::Done { result: Err(ConnectError) });
    assert_eq!(state.next_action(), WorkerAction::Stop);
}

#[test]
fn zero_requests_finish_immediately() {
    let state = drive(vec![WorkerEvent::Connected { ok: true }], 0, false);
    assert_eq!(state, WorkerState::Done { result: Ok(0) });
}

#[test]
fn identical_runs_report_identically() {
    let requests = 4;
    let connections = 2;
    let mut reports = Vec::new();
    for _ in 0..2 {
        let mut outcomes = Vec::new();
        for _ in 0..connections {
            match drive(echo_events(requests, false), requests, false) {
                WorkerState::Done { result } => {
                    outcomes.push(TaskOutcome::Completed(result))
                }
                other => panic!("worker did not finish: {:?}", other),
            }
        }
        reports.push(build_report(connections, requests, &outcomes));
    }
    assert_eq!(reports[0], reports[1]);
    assert_eq!(reports[0].planned_requests, 8);
    assert_eq!(reports[0].successful_requests, 8);
}

#[test]
fn args_carry_parsed_values() {
    let args = Args::parse_args(3, 7, true, String::from("localhost:9000"));
    assert_eq!(args.connections, 3);
    assert_eq!(args.requests, 7);
    assert!(args.write_only);
    assert_eq!(args.endpoint, "localhost:9000");
}

#[test]
fn ping_payload_is_five_fixed_bytes() {
    let msg = ping_message();
    assert_eq!(msg, b"ping\n".to_vec());
}
