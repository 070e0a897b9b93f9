//! The run configuration: how many connections to open, how many requests to
//! send on each, whether to wait for responses, and where to connect.

use vstd::prelude::*;

verus! {

/// Configuration of a single run, built once at startup and read-only
/// afterwards.
#[derive(Debug)]
pub struct Args {
    /// Number of simultaneous connections.
    pub connections: usize,
    /// Number of requests in every connection.
    pub requests: usize,
    /// Whether to check writing to the connection only.
    pub write_only: bool,
    /// Endpoint to connect to.
    pub endpoint: String,
}

impl Args {
    /// Builds the run configuration from already-parsed command-line values.
    pub fn parse_args(
        connections: usize,
        requests: usize,
        write_only: bool,
        endpoint: String,
    ) -> (args: Args)
        ensures
            args.connections == connections,
            args.requests == requests,
            args.write_only == write_only,
            args.endpoint@ == endpoint@,
    {
        Args { connections, requests, write_only, endpoint }
    }
}

} // verus!
