//! The query service: from a request to a response.
//!
//! `add` is answered on the spot. `probe` needs the external data source, so
//! the service is written in two steps around that one outside call:
//! [`begin`] decides whether the source has to be asked, and [`finish`] turns
//! what the source answered into the response. Nothing is asked of the source
//! before the request has been found valid.

use vstd::prelude::*;
use crate::error::ErrorKind;
use crate::operation::{resolution, resolve, Operation};
use crate::request::{Request, RequestView};

verus! {

/// The answer to a request.
#[derive(Clone, Copy, Debug, PartialEq, Eq, Structural)]
pub enum Response {
    /// The operation's result.
    Value(i64),
    /// The reason why there is no result.
    Error(ErrorKind),
}

/// What came of asking the external data source.
#[derive(Clone, Copy, Debug, PartialEq, Eq, Structural)]
pub enum ProbeOutcome {
    /// The source answered with this integer.
    Scalar(i32),
    /// The source answered, but with no value.
    Empty,
    /// No connection of the pool became free in time.
    PoolExhausted,
    /// The source could not be reached.
    Unreachable,
    /// The source was reached and did not answer in time.
    TimedOut,
    /// The source failed in some other way.
    Failed,
}

/// What the service does first with a request.
#[derive(Clone, Copy, Debug, PartialEq, Eq, Structural)]
pub enum Step {
    /// The response is known: send it.
    Reply(Response),
    /// Ask the external data source, then call [`finish`] with the outcome.
    Probe,
}

/// The sum of two 32-bit integers, which always fits 64 bits.
pub fn sum(a: i32, b: i32) -> (out: i64)
    ensures
        out == a + b,
{
    let wide_a: i64 = a as i64;
    let wide_b: i64 = b as i64;
    wide_a + wide_b
}

/// The response that an outcome of the probe leads to.
pub open spec fn conclusion(outcome: ProbeOutcome) -> Response {
    match outcome {
        ProbeOutcome::Scalar(n) => Response::Value(n as i64),
        ProbeOutcome::Empty => Response::Error(ErrorKind::Internal),
        ProbeOutcome::PoolExhausted => Response::Error(ErrorKind::Unavailable),
        ProbeOutcome::Unreachable => Response::Error(ErrorKind::Unavailable),
        ProbeOutcome::TimedOut => Response::Error(ErrorKind::Unavailable),
        ProbeOutcome::Failed => Response::Error(ErrorKind::Internal),
    }
}

/// The first step on a request, in a service that has an external data
/// source (`source`) or has none.
pub open spec fn first_step(request: RequestView, source: bool) -> Step {
    match resolution(request) {
        Err(kind) => Step::Reply(Response::Error(kind)),
        Ok(Operation::Add { a, b }) => Step::Reply(Response::Value((a + b) as i64)),
        Ok(Operation::Probe) => if source {
            Step::Probe
        } else {
            Step::Reply(Response::Error(ErrorKind::Unavailable))
        },
    }
}

/// The response of a service without an external data source.
pub open spec fn reply(request: RequestView) -> Response {
    match resolution(request) {
        Err(kind) => Response::Error(kind),
        Ok(Operation::Add { a, b }) => Response::Value((a + b) as i64),
        Ok(Operation::Probe) => Response::Error(ErrorKind::Unavailable),
    }
}

/// Decides what to do with a request.
///
/// An invalid request is answered with its error and `add` with its sum. For
/// `probe` the caller is told to ask the external data source where the
/// service has one (`source`), and answered `Unavailable` where it has none.
pub fn begin(request: &Request, source: bool) -> (out: Step)
    ensures
        out == first_step(request@, source),
{
    match resolve(request) {
        Err(kind) => Step::Reply(Response::Error(kind)),
        Ok(Operation::Add { a, b }) => Step::Reply(Response::Value(sum(a, b))),
        Ok(Operation::Probe) => {
            if source {
                Step::Probe
            } else {
                Step::Reply(Response::Error(ErrorKind::Unavailable))
            }
        },
    }
}

/// Turns the outcome of the probe into the response.
///
/// The integer that the source gave is the result. A pool without a free
/// connection, a source out of reach and a timeout are `Unavailable`; an
/// answer without a value and every other failure are `Internal`.
pub fn finish(outcome: ProbeOutcome) -> (out: Response)
    ensures
        out == conclusion(outcome),
{
    match outcome {
        ProbeOutcome::Scalar(n) => Response::Value(n as i64),
        ProbeOutcome::Empty => Response::Error(ErrorKind::Internal),
        ProbeOutcome::PoolExhausted => Response::Error(ErrorKind::Unavailable),
        ProbeOutcome::Unreachable => Response::Error(ErrorKind::Unavailable),
        ProbeOutcome::TimedOut => Response::Error(ErrorKind::Unavailable),
        ProbeOutcome::Failed => Response::Error(ErrorKind::Internal),
    }
}

/// Executes a request in a service without an external data source.
///
/// The response depends on the request alone: `add` gives the sum, `probe`
/// is `Unavailable`, and invalid requests give their error.
pub fn execute(request: &Request) -> (out: Response)
    ensures
        out == reply(request@),
{
    match begin(request, false) {
        Step::Reply(response) => response,
        Step::Probe => Response::Error(ErrorKind::Unavailable),
    }
}

/// Executes a request in a service whose external data source is asked by
/// calling `probe`.
///
/// `probe` is called at most once, and only for a valid `probe` request; the
/// response is then the conclusion drawn from what it returned. Every other
/// request is answered as [`begin`] says, without a call.
pub fn execute_with<F: FnOnce() -> ProbeOutcome>(request: &Request, probe: F) -> (out: Response)
    requires
        probe.requires(()),
    ensures
        match first_step(request@, true) {
            Step::Reply(response) => out == response,
            Step::Probe => exists|outcome: ProbeOutcome|
                probe.ensures((), outcome) && out == conclusion(outcome),
        },
{
    match begin(request, true) {
        Step::Reply(response) => response,
        Step::Probe => {
            let outcome = probe();
            finish(outcome)
        },
    }
}

} // verus!
