//! Requests and responses of the daemon's line-based TCP protocol.
use vstd::prelude::*;
use crate::process::state::ServerState;
use crate::text::copy_str;

pub use crate::types::tcp::schemas::{Op, StartData};

verus! {

/// A request from the client.
#[derive(Debug)]
pub enum TcpRequest {
    Start,
    Stop,
    Status,
    Op(Op),
}

/// The daemon's answer to one request.
#[derive(Debug)]
pub struct TcpResponse {
    pub success: bool,
    pub error: Option<String>,
    pub data: ResponsePayload,
}

/// What a successful response carries.
#[derive(Debug)]
pub enum ResponsePayload {
    Status(ServerState),
    Start(StartData),
    OpResult(Op),
    Simple(String),
    /// No payload.
    Empty,
}

impl TcpResponse {
    /// Success without a payload.
    pub fn ok() -> (r: Self)
        ensures
            r.success,
            r.error is None,
            r.data is Empty,
    {
        TcpResponse { success: true, error: None, data: ResponsePayload::Empty }
    }

    /// Success carrying `payload`.
    pub fn ok_with(payload: ResponsePayload) -> (r: Self)
        ensures
            r.success,
            r.error is None,
            r.data == payload,
    {
        TcpResponse { success: true, error: None, data: payload }
    }

    /// Failure with the message `msg` and no payload.
    pub fn error(msg: &str) -> (r: Self)
        ensures
            !r.success,
            r.error matches Some(e) && e@ == msg@,
            r.data is Empty,
    {
        TcpResponse { success: false, error: Some(copy_str(msg)), data: ResponsePayload::Empty }
    }
}

/// Whether a response carries no payload (then the field is left out of the
/// serialized response).
pub fn is_payload_none(payload: &ResponsePayload) -> (r: bool)
    ensures
        r == payload is Empty,
{
    match payload {
        ResponsePayload::Empty => true,
        _ => false,
    }
}

} // verus!
