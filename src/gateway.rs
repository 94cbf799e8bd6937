//! The gateway's error model: how a bounded pool's refusals and a channel's
//! failures reach the caller.

use vstd::prelude::*;

use crate::protocol::Response;

verus! {

#[verifier::external_type_specification]
#[verifier::external_body]
pub struct ExPoolError(tokio_task_pool::Error);

/// A failure of the channel between host and enclave.
#[derive(Debug)]
pub enum ChannelError {
    /// Connecting, reading or writing failed.
    Transport(String),
    /// A frame or a message was not what the protocol allows.
    Protocol(String),
    /// The enclave could not open an envelope or check a key.
    Crypto(String),
}

/// Why the gateway did not return a response.
#[derive(Debug)]
pub enum GatewayError {
    /// No slot of the pool freed up within the spawn timeout.
    Overloaded,
    /// The round trip outran the run timeout.
    Timeout,
    /// The pool no longer hands out slots.
    PoolClosed,
    /// The channel failed; see the inner error.
    Channel(ChannelError),
}

impl GatewayError {
    /// Whether the caller should be told to try again later.
    pub open spec fn is_busy(&self) -> bool {
        self is Overloaded || self is Timeout
    }

    /// The HTTP status an interactive caller gets: 503 when busy, else 500.
    pub fn http_status(&self) -> (r: u16)
        ensures
            r == (if self.is_busy() {
                503u16
            } else {
                500u16
            }),
    {
        match self {
            GatewayError::Overloaded | GatewayError::Timeout => 503,
            _ => 500,
        }
    }
}

/// Relies on `tokio_task_pool::Error`: `SpawnTimeout` and `NotAvailable` are
/// refusals for want of a free slot, `RunTimeout` a task that outran its run
/// timeout, `SpawnSemaphoneAcquireError` a closed pool.
#[verifier::external_body]
fn from_pool_error(e: tokio_task_pool::Error) -> (r: GatewayError)
    ensures
        !(r is Channel),
{
    match e {
        tokio_task_pool::Error::SpawnTimeout => GatewayError::Overloaded,
        tokio_task_pool::Error::NotAvailable => GatewayError::Overloaded,
        tokio_task_pool::Error::RunTimeout(_) => GatewayError::Timeout,
        tokio_task_pool::Error::SpawnSemaphoneAcquireError => GatewayError::PoolClosed,
    }
}

/// The result of one call through the pool: a response is handed on as it
/// is, a channel failure as [`GatewayError::Channel`], and a refusal of the
/// pool as one of the pool's own errors.
pub fn settle_gateway_call(
    outcome: Result<Result<Response, ChannelError>, tokio_task_pool::Error>,
) -> (r: Result<Response, GatewayError>)
    ensures
        outcome is Ok && outcome->Ok_0 is Ok ==> r is Ok && r->Ok_0 == outcome->Ok_0->Ok_0,
        outcome is Ok && outcome->Ok_0 is Err ==> r is Err && r->Err_0 == GatewayError::Channel(
            outcome->Ok_0->Err_0,
        ),
        outcome is Err ==> r is Err && !(r->Err_0 is Channel),
{
    match outcome {
        Ok(Ok(response)) => Ok(response),
        Ok(Err(e)) => Err(GatewayError::Channel(e)),
        Err(e) => Err(from_pool_error(e)),
    }
}

} // verus!
