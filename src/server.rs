//! What the server does with one connection once its four command bytes are
//! read: answer a query, switch the socket, or ignore the command.
use vstd::prelude::*;

use crate::device::{is_draw, Socket, SocketView};
use crate::protocol::{command_bytes, command_of, status_bytes, Command, StatusResponse};

verus! {

/// The server; it serves one connection at a time.
pub struct SocketServer {}

/// What became of a connection's command.
#[derive(Clone, Copy, Debug, PartialEq, Eq)]
pub enum Reply {
    /// A query: these bytes are written back to the client.
    Status([u8; 12]),
    /// The socket was switched on; nothing is written back.
    SwitchedOn,
    /// The socket was switched off; nothing is written back.
    SwitchedOff,
    /// The command was not recognised; nothing changed and nothing is written back.
    Ignored,
}

/// The status response that reports the socket `s`.
pub open spec fn report(s: SocketView) -> StatusResponse {
    StatusResponse { state: s.reading().0, power: s.reading().1 }
}

/// The socket after the command bytes `request` were served; `power` is the
/// draw that a switch-on takes.
pub open spec fn after_request(s: SocketView, request: Seq<u8>, power: u64) -> SocketView {
    match command_of(request) {
        Some(Command::SwitchOn) => s.switched_on(power),
        Some(Command::SwitchOff) => s.switched_off(),
        _ => s,
    }
}

impl Reply {
    /// `self` is what the server owes for `request` on the socket `s`.
    pub open spec fn answers(self, s: SocketView, request: Seq<u8>) -> bool {
        match (command_of(request), self) {
            (Some(Command::QueryState), Reply::Status(bytes)) => bytes@ == status_bytes(report(s)),
            (Some(Command::SwitchOn), Reply::SwitchedOn) => true,
            (Some(Command::SwitchOff), Reply::SwitchedOff) => true,
            (None, Reply::Ignored) => true,
            _ => false,
        }
    }
}

impl SocketServer {
    /// Serves the command bytes `request` on `socket`. `power` is a draw picked
    /// at random in `[1.0, 30.0)`, used only if the command switches the
    /// socket on.
    pub fn handle_request(request: &[u8; 4], socket: &mut Socket, power: u64) -> (r: Reply)
        requires
            old(socket)@.wf(),
            is_draw(power),
        ensures
            final(socket)@ == after_request(old(socket)@, request@, power),
            final(socket)@.wf(),
            r.answers(old(socket)@, request@),
    {
        match Command::decode(request) {
            Some(Command::QueryState) => {
                let (state, power) = socket.current_state();
                let response = StatusResponse { state, power };
                Reply::Status(response.encode())
            },
            Some(Command::SwitchOn) => {
                socket.switch_on(power);
                Reply::SwitchedOn
            },
            Some(Command::SwitchOff) => {
                socket.switch_off();
                Reply::SwitchedOff
            },
            None => Reply::Ignored,
        }
    }
}

/// A query leaves the socket as it was, so two queries with no switch between
/// them are answered with the same bytes.
pub proof fn lemma_query_idempotent(s: SocketView, power: u64, first: Reply, second: Reply)
    requires
        first.answers(s, command_bytes(Command::QueryState)),
        second.answers(
            after_request(s, command_bytes(Command::QueryState), power),
            command_bytes(Command::QueryState),
        ),
    ensures
        after_request(s, command_bytes(Command::QueryState), power) == s,
        first == second,
{
    let q = command_bytes(Command::QueryState);
    assert(command_of(q) == Some(Command::QueryState));
    match (first, second) {
        (Reply::Status(a), Reply::Status(b)) => {
            assert(a@ =~= b@);
            assert(a == b);
        },
        _ => {},
    }
}

} // verus!
