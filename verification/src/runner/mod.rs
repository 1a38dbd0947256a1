//! Routing of requests to runners.

pub mod shell;

use crate::protocol::Request;
use crate::protocol::RequestView;
use crate::protocol::Runner as RunnerSpec;
use crate::protocol::RunnerView;
use vstd::prelude::*;

verus! {

/// The shell request that `request` is routed to, or `None` where its variant
/// has no runner.
pub open spec fn route(request: RequestView) -> Option<shell::RequestView> {
    match request.runner {
        RunnerView::Shell { command } => Some(
            shell::RequestView {
                identifier: request.identifier,
                job_identifier: request.job_identifier,
                command,
            },
        ),
        _ => None,
    }
}

/// The router: it holds no state and starts nothing itself.
pub struct Runner {}

impl Runner {
    /// Routes `request` by its variant. `Ok` holds what the shell runner is
    /// to be launched with; `Err` says that no runner takes the request, so
    /// that the caller owes its failure response.
    pub fn execute(request: &Request) -> (routed: Result<shell::Request, ()>)
        ensures
            match route(request@) {
                Some(launch) => routed matches Ok(r) && r@ == launch,
                None => routed is Err,
            },
    {
        match &request.runner {
            RunnerSpec::Shell { command } => Ok(
                shell::Request::new(
                    request.identifier,
                    request.job_identifier.clone(),
                    command.clone(),
                ),
            ),
            _ => Err(()),
        }
    }
}

} // verus!
