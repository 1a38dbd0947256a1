//! The messages exchanged between the upstream store and the processor.
//!
//! A [`Request`] asks for one execution; a [`Response`] carries its outcome
//! back, correlated to the request by identifier.

use uuid::Uuid;
use vstd::prelude::*;

verus! {

/// `uuid::Uuid`, carried through unopened: the processor copies identifiers
/// from requests to responses and never looks inside one.
#[verifier::external_type_specification]
#[verifier::external_body]
pub struct ExUuid(uuid::Uuid);

/// Which runner executes a request, and with what configuration.
#[derive(Debug, PartialEq, Eq)]
pub enum Runner {
    Shell { command: String },
    Queue { dsn: String, exchange: String, routing_key: String },
}

/// One unit of work submitted by the upstream store.
#[derive(Debug, PartialEq, Eq)]
pub struct Request {
    pub identifier: Uuid,
    pub job_identifier: String,
    pub runner: Runner,
}

/// The outcome of one request: success, or failure without payload.
#[derive(Debug, Clone, Copy, PartialEq, Eq)]
pub struct Response {
    pub identifier: Uuid,
    pub result: Result<(), ()>,
}

/// The mathematical value of a [`Runner`].
pub enum RunnerView {
    Shell { command: Seq<char> },
    Queue { dsn: Seq<char>, exchange: Seq<char>, routing_key: Seq<char> },
}

/// The mathematical value of a [`Request`].
pub struct RequestView {
    pub identifier: Uuid,
    pub job_identifier: Seq<char>,
    pub runner: RunnerView,
}

impl View for Runner {
    type V = RunnerView;

    open spec fn view(&self) -> RunnerView {
        match *self {
            Runner::Shell { command } => RunnerView::Shell { command: command@ },
            Runner::Queue { dsn, exchange, routing_key } => RunnerView::Queue {
                dsn: dsn@,
                exchange: exchange@,
                routing_key: routing_key@,
            },
        }
    }
}

impl View for Request {
    type V = RequestView;

    open spec fn view(&self) -> RequestView {
        RequestView {
            identifier: self.identifier,
            job_identifier: self.job_identifier@,
            runner: self.runner@,
        }
    }
}

impl Response {
    /// The failure owed to the request that bears `identifier`.
    pub open spec fn spec_failure(identifier: Uuid) -> Response {
        Response { identifier, result: Err(()) }
    }

    /// The failure owed to the request that bears `identifier`.
    #[verifier::when_used_as_spec(spec_failure)]
    pub fn failure(identifier: Uuid) -> (response: Response)
        ensures
            response == Self::spec_failure(identifier),
    {
        Response { identifier, result: Err(()) }
    }
}

} // verus!
