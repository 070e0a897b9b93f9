//! A minimal TCP load-generation library.
//!
//! The library holds the verified core of the tool: the run configuration,
//! the per-connection worker state machine, and the aggregation of worker
//! results into a final report. The surrounding binary performs the actual
//! network I/O and feeds the outcomes of each operation back into the state
//! machine as events.

use vstd::prelude::*;

pub mod config;
pub mod report;
pub mod worker;

pub use config::Args;
pub use report::RunReport;
pub use report::TaskOutcome;
pub use worker::ConnectError;
pub use worker::WorkerAction;
pub use worker::WorkerEvent;
pub use worker::WorkerState;

verus! {

} // verus!
