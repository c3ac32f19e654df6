//! The wire format: four-byte commands from client to server, and the
//! twelve-byte status response that answers a query.
use vstd::prelude::*;

verus! {

/// ASCII codes of the letters and digits that the wire format uses.
pub const ASCII_C: u8 = 0x63;
pub const ASCII_M: u8 = 0x6d;
pub const ASCII_D: u8 = 0x64;
pub const ASCII_0: u8 = 0x30;
pub const ASCII_1: u8 = 0x31;
pub const ASCII_2: u8 = 0x32;
pub const ASCII_R: u8 = 0x72;
pub const ASCII_S: u8 = 0x73;
pub const ASCII_T: u8 = 0x74;

/// Length of every command on the wire.
pub const COMMAND_LEN: usize = 4;

/// Length of a status response on the wire.
pub const RESPONSE_LEN: usize = 12;

/// The three bytes `"cmd"` that every command starts with.
pub open spec fn command_prefix() -> Seq<u8> {
    seq![ASCII_C, ASCII_M, ASCII_D]
}

/// The marker `"rst"` that starts a well-formed status response.
pub open spec fn marker() -> Seq<u8> {
    seq![ASCII_R, ASCII_S, ASCII_T]
}

/// What a client asks of the server.
#[derive(Clone, Copy, Debug, PartialEq, Eq, Structural)]
pub enum Command {
    QueryState,
    SwitchOn,
    SwitchOff,
}

/// The four bytes of a command: `"cmd0"`, `"cmd1"` or `"cmd2"`.
pub open spec fn command_bytes(c: Command) -> Seq<u8> {
    command_prefix().push(
        match c {
            Command::QueryState => ASCII_0,
            Command::SwitchOn => ASCII_1,
            Command::SwitchOff => ASCII_2,
        },
    )
}

/// The command that four bytes name, if any.
pub open spec fn command_of(b: Seq<u8>) -> Option<Command> {
    if b == command_bytes(Command::QueryState) {
        Some(Command::QueryState)
    } else if b == command_bytes(Command::SwitchOn) {
        Some(Command::SwitchOn)
    } else if b == command_bytes(Command::SwitchOff) {
        Some(Command::SwitchOff)
    } else {
        None
    }
}

impl Command {
    pub fn encode(&self) -> (r: [u8; 4])
        ensures
            r@ == command_bytes(*self),
    {
        let last = match self {
            Command::QueryState => ASCII_0,
            Command::SwitchOn => ASCII_1,
            Command::SwitchOff => ASCII_2,
        };
        let r = [ASCII_C, ASCII_M, ASCII_D, last];
        assert(r@ =~= command_bytes(*self));
        r
    }

    /// The command that `bytes` name, or `None` for any other four bytes.
    pub fn decode(bytes: &[u8; 4]) -> (r: Option<Command>)
        ensures
            r == command_of(bytes@),
    {
        let ghost b = bytes@;
        assert(b.len() == 4);
        if bytes[0] != ASCII_C || bytes[1] != ASCII_M || bytes[2] != ASCII_D {
            assert(b[0] != ASCII_C || b[1] != ASCII_M || b[2] != ASCII_D);
            assert(command_bytes(Command::QueryState)[0] == ASCII_C);
            assert(command_bytes(Command::QueryState)[1] == ASCII_M);
            assert(command_bytes(Command::QueryState)[2] == ASCII_D);
            assert(command_bytes(Command::SwitchOn)[0] == ASCII_C);
            assert(command_bytes(Command::SwitchOn)[1] == ASCII_M);
            assert(command_bytes(Command::SwitchOn)[2] == ASCII_D);
            assert(command_bytes(Command::SwitchOff)[0] == ASCII_C);
            assert(command_bytes(Command::SwitchOff)[1] == ASCII_M);
            assert(command_bytes(Command::SwitchOff)[2] == ASCII_D);
            return None;
        }
        let last = bytes[3];
        assert(command_bytes(Command::QueryState)[3] == ASCII_0);
        assert(command_bytes(Command::SwitchOn)[3] == ASCII_1);
        assert(command_bytes(Command::SwitchOff)[3] == ASCII_2);
        if last == ASCII_0 {
            assert(b =~= command_bytes(Command::QueryState));
            Some(Command::QueryState)
        } else if last == ASCII_1 {
            assert(b =~= command_bytes(Command::SwitchOn));
            Some(Command::SwitchOn)
        } else if last == ASCII_2 {
            assert(b =~= command_bytes(Command::SwitchOff));
            Some(Command::SwitchOff)
        } else {
            None
        }
    }
}

/// The eight bytes of `v`, most significant first.
pub open spec fn be_bytes(v: u64) -> Seq<u8> {
    seq![
        (v >> 56u64) as u8,
        (v >> 48u64) as u8,
        (v >> 40u64) as u8,
        (v >> 32u64) as u8,
        (v >> 24u64) as u8,
        (v >> 16u64) as u8,
        (v >> 8u64) as u8,
        v as u8,
    ]
}

/// The number that eight bytes hold, most significant first.
pub open spec fn be_value(b: Seq<u8>) -> u64
    recommends
        b.len() == 8,
{
    (b[0] as u64) << 56u64 | (b[1] as u64) << 48u64 | (b[2] as u64) << 40u64 | (b[3] as u64)
        << 32u64 | (b[4] as u64) << 24u64 | (b[5] as u64) << 16u64 | (b[6] as u64) << 8u64 | (
    b[7] as u64)
}

/// A query's answer: the state (`0` off, `1` on) and the bit pattern of the
/// power draw.
#[derive(Clone, Copy, Debug, PartialEq, Eq, Structural)]
pub struct StatusResponse {
    pub state: u8,
    pub power: u64,
}

/// Why a status response was refused.
#[derive(Clone, Copy, Debug, PartialEq, Eq, Structural)]
pub enum DecodeError {
    /// The first three bytes are not `"rst"`.
    BadMarker,
}

/// The twelve bytes of a status response: the marker, the state, and the
/// power draw big-endian.
pub open spec fn status_bytes(s: StatusResponse) -> Seq<u8> {
    marker().push(s.state) + be_bytes(s.power)
}

/// What twelve bytes decode to.
pub open spec fn status_of(b: Seq<u8>) -> Result<StatusResponse, DecodeError>
    recommends
        b.len() == 12,
{
    if b.subrange(0, 3) == marker() {
        Ok(StatusResponse { state: b[3], power: be_value(b.subrange(4, 12)) })
    } else {
        Err(DecodeError::BadMarker)
    }
}

impl StatusResponse {
    pub fn encode(&self) -> (r: [u8; 12])
        ensures
            r@ == status_bytes(*self),
    {
        let p = self.power;
        let r = [
            ASCII_R,
            ASCII_S,
            ASCII_T,
            self.state,
            (p >> 56u64) as u8,
            (p >> 48u64) as u8,
            (p >> 40u64) as u8,
            (p >> 32u64) as u8,
            (p >> 24u64) as u8,
            (p >> 16u64) as u8,
            (p >> 8u64) as u8,
            p as u8,
        ];
        assert(r@ =~= status_bytes(*self));
        r
    }

    /// Reads a status response, refusing it when the marker is wrong.
    pub fn decode(bytes: &[u8; 12]) -> (r: Result<StatusResponse, DecodeError>)
        ensures
            r == status_of(bytes@),
    {
        let ghost b = bytes@;
        assert(b.len() == 12);
        if bytes[0] != ASCII_R || bytes[1] != ASCII_S || bytes[2] != ASCII_T {
            assert(b.subrange(0, 3)[0] == b[0]);
            assert(b.subrange(0, 3)[1] == b[1]);
            assert(b.subrange(0, 3)[2] == b[2]);
            assert(b.subrange(0, 3) != marker());
            return Err(DecodeError::BadMarker);
        }
        assert(b.subrange(0, 3) =~= marker());
        let power = (bytes[4] as u64) << 56u64 | (bytes[5] as u64) << 48u64 | (bytes[6] as u64)
            << 40u64 | (bytes[7] as u64) << 32u64 | (bytes[8] as u64) << 24u64 | (bytes[9] as u64)
            << 16u64 | (bytes[10] as u64) << 8u64 | (bytes[11] as u64);
        let ghost tail = b.subrange(4, 12);
        assert(tail[0] == b[4] && tail[1] == b[5] && tail[2] == b[6] && tail[3] == b[7]);
        assert(tail[4] == b[8] && tail[5] == b[9] && tail[6] == b[10] && tail[7] == b[11]);
        Ok(StatusResponse { state: bytes[3], power })
    }
}

/// Eight bytes read back give the number they were written from.
pub proof fn lemma_be_round_trip(v: u64)
    ensures
        be_value(be_bytes(v)) == v,
{
    let b = be_bytes(v);
    assert(b[0] == (v >> 56u64) as u8);
    assert(b[1] == (v >> 48u64) as u8);
    assert(b[2] == (v >> 40u64) as u8);
    assert(b[3] == (v >> 32u64) as u8);
    assert(b[4] == (v >> 24u64) as u8);
    assert(b[5] == (v >> 16u64) as u8);
    assert(b[6] == (v >> 8u64) as u8);
    assert(b[7] == v as u8);
    assert(((v >> 56u64) as u8 as u64) << 56u64 | ((v >> 48u64) as u8 as u64) << 48u64 | ((v
        >> 40u64) as u8 as u64) << 40u64 | ((v >> 32u64) as u8 as u64) << 32u64 | ((v
        >> 24u64) as u8 as u64) << 24u64 | ((v >> 16u64) as u8 as u64) << 16u64 | ((v
        >> 8u64) as u8 as u64) << 8u64 | (v as u8 as u64) == v) by (bit_vector);
}

/// Decoding the bytes of a status response gives back exactly the state and
/// the power draw it was encoded from.
pub proof fn lemma_status_round_trip(s: StatusResponse)
    ensures
        status_bytes(s).len() == 12,
        status_of(status_bytes(s)) == Ok::<StatusResponse, DecodeError>(s),
{
    let b = status_bytes(s);
    assert(b.subrange(0, 3) =~= marker());
    assert(b.subrange(4, 12) =~= be_bytes(s.power));
    lemma_be_round_trip(s.power);
}

} // verus!
