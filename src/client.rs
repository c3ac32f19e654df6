//! The client's side of a call: what it makes of the bytes that came back,
//! and the fixed result records that foreign callers receive.
use vstd::prelude::*;

use crate::protocol::{status_of, DecodeError, StatusResponse, RESPONSE_LEN};

verus! {

/// Why a client call failed.
#[derive(Clone, Copy, Debug, PartialEq, Eq, Structural)]
pub enum ClientError {
    /// Connecting, writing or reading failed; this includes a server that
    /// closed before a whole response arrived.
    Transport,
    /// A response came whose marker is not `"rst"`.
    ProtocolCorruption,
}

/// What a query yields from the bytes `received` before the server closed
/// the connection: a response is read as its first twelve bytes.
pub open spec fn query_outcome(received: Seq<u8>) -> Result<(u8, u64), ClientError> {
    if received.len() < 12 {
        Err(ClientError::Transport)
    } else {
        match status_of(received.subrange(0, 12)) {
            Ok(s) => Ok((s.state, s.power)),
            Err(_) => Err(ClientError::ProtocolCorruption),
        }
    }
}

/// The client: each call opens a connection of its own.
pub struct SocketClient {}

impl SocketClient {
    /// Reads a query's answer from the bytes that came back (at most a
    /// response's length is read). Fewer than twelve bytes is a short read.
    pub fn read_state(received: &[u8]) -> (r: Result<(u8, u64), ClientError>)
        ensures
            r == query_outcome(received@),
    {
        if received.len() < RESPONSE_LEN {
            return Err(ClientError::Transport);
        }
        let bytes: [u8; 12] = [
            received[0],
            received[1],
            received[2],
            received[3],
            received[4],
            received[5],
            received[6],
            received[7],
            received[8],
            received[9],
            received[10],
            received[11],
        ];
        assert(bytes@ =~= received@.subrange(0, 12));
        match StatusResponse::decode(&bytes) {
            Ok(s) => Ok((s.state, s.power)),
            Err(DecodeError::BadMarker) => Err(ClientError::ProtocolCorruption),
        }
    }
}

/// The result codes that foreign callers receive.
#[derive(Clone, Copy, Debug, PartialEq, Eq, Structural)]
pub enum SockError {
    NoError,
    SwitchOnFailed,
    SwitchOffFailed,
    GetStatusFailed,
}

impl SockError {
    pub open spec fn spec_code(self) -> i32 {
        match self {
            SockError::NoError => 0,
            SockError::SwitchOnFailed => 1,
            SockError::SwitchOffFailed => 2,
            SockError::GetStatusFailed => 3,
        }
    }

    /// The number under which the code is handed out.
    pub fn code(&self) -> (r: i32)
        ensures
            r == self.spec_code(),
    {
        match self {
            SockError::NoError => 0,
            SockError::SwitchOnFailed => 1,
            SockError::SwitchOffFailed => 2,
            SockError::GetStatusFailed => 3,
        }
    }

    /// The code for a switch-on call's result.
    pub fn from_switch_on(r: Result<(), ClientError>) -> (e: SockError)
        ensures
            e == (if r is Ok { SockError::NoError } else { SockError::SwitchOnFailed }),
    {
        match r {
            Ok(()) => SockError::NoError,
            Err(_) => SockError::SwitchOnFailed,
        }
    }

    /// The code for a switch-off call's result.
    pub fn from_switch_off(r: Result<(), ClientError>) -> (e: SockError)
        ensures
            e == (if r is Ok { SockError::NoError } else { SockError::SwitchOffFailed }),
    {
        match r {
            Ok(()) => SockError::NoError,
            Err(_) => SockError::SwitchOffFailed,
        }
    }
}

/// A query's result as foreign callers receive it. `power` is the bit
/// pattern of the draw; on failure every field but `error` is zero.
#[derive(Clone, Copy, Debug, PartialEq, Eq, Structural)]
pub struct SocketState {
    pub state: u32,
    pub power: u64,
    pub error: i32,
}

impl SocketState {
    /// The record for a query's result.
    pub fn from_query(r: Result<(u8, u64), ClientError>) -> (s: SocketState)
        ensures
            s == (match r {
                Ok((state, power)) => SocketState {
                    state: state as u32,
                    power,
                    error: SockError::NoError.spec_code(),
                },
                Err(_) => SocketState {
                    state: 0,
                    power: 0,
                    error: SockError::GetStatusFailed.spec_code(),
                },
            }),
    {
        match r {
            Ok((state, power)) => SocketState {
                state: state as u32,
                power,
                error: SockError::NoError.code(),
            },
            Err(_) => SocketState { state: 0, power: 0, error: SockError::GetStatusFailed.code() },
        }
    }
}

} // verus!
