//! The socket itself: an on/off flag and the current power draw.
use vstd::prelude::*;

verus! {

/// Bit pattern of the double `1.0`: the lowest draw of a socket that is on.
pub const MIN_DRAW_BITS: u64 = 0x3FF0_0000_0000_0000;

/// Bit pattern of the double `30.0`: every draw of a socket that is on lies below it.
pub const MAX_DRAW_BITS: u64 = 0x403E_0000_0000_0000;

/// Bit pattern of the double `0.0`: the draw of a socket that is off.
pub const ZERO_POWER_BITS: u64 = 0;

/// `bits` is the pattern of a double `p` with `1.0 <= p < 30.0`.
///
/// Non-negative doubles are ordered as their bit patterns are, so the range
/// of values is a range of patterns.
pub open spec fn is_draw(bits: u64) -> bool {
    MIN_DRAW_BITS <= bits < MAX_DRAW_BITS
}

/// Tells whether `bits` may be handed to [`Socket::switch_on`].
pub fn is_valid_draw(bits: u64) -> (r: bool)
    ensures
        r == is_draw(bits),
{
    MIN_DRAW_BITS <= bits && bits < MAX_DRAW_BITS
}

/// The two positions of the switch.
#[derive(Clone, Copy, Debug, PartialEq, Eq, Structural)]
pub enum SocketState {
    On,
    Off,
}

impl SocketState {
    /// The name under which a state is shown.
    pub open spec fn label(self) -> Seq<char> {
        match self {
            SocketState::On => "On"@,
            SocketState::Off => "Off"@,
        }
    }

    pub fn to_string(&self) -> (r: String)
        ensures
            r@ == self.label(),
    {
        match self {
            SocketState::On => "On".to_owned(),
            SocketState::Off => "Off".to_owned(),
        }
    }
}

/// What a socket is, seen from its contracts.
pub struct SocketView {
    pub on: bool,
    /// Bit pattern of the power draw, in amperes.
    pub power: u64,
    pub description: Seq<char>,
}

impl SocketView {
    /// A socket that is off draws nothing; one that is on draws within range.
    pub open spec fn wf(self) -> bool {
        &&& !self.on ==> self.power == ZERO_POWER_BITS
        &&& self.on ==> is_draw(self.power)
    }

    /// The `(state, power)` pair that a query reports: `(1, power)` when on,
    /// `(0, 0.0)` when off.
    pub open spec fn reading(self) -> (u8, u64) {
        if self.on {
            (1u8, self.power)
        } else {
            (0u8, ZERO_POWER_BITS)
        }
    }

    pub open spec fn switched_on(self, power: u64) -> SocketView {
        SocketView { on: true, power, description: self.description }
    }

    pub open spec fn switched_off(self) -> SocketView {
        SocketView { on: false, power: ZERO_POWER_BITS, description: self.description }
    }
}

/// The socket's state as the server holds it.
pub struct Socket {
    description: String,
    state: SocketState,
    current_power_consumption: u64,
}

impl View for Socket {
    type V = SocketView;

    closed spec fn view(&self) -> SocketView {
        SocketView {
            on: self.state == SocketState::On,
            power: self.current_power_consumption,
            description: self.description@,
        }
    }
}

impl Default for Socket {
    fn default() -> (r: Self)
        ensures
            !r@.on,
            r@.power == ZERO_POWER_BITS,
            r@.description == "new socket"@,
            r@.wf(),
    {
        Self::new()
    }
}

impl Socket {
    /// A fresh socket: off, drawing nothing, described as "new socket".
    pub fn new() -> (r: Self)
        ensures
            !r@.on,
            r@.power == ZERO_POWER_BITS,
            r@.description == "new socket"@,
            r@.wf(),
    {
        let description = "new socket".to_owned();
        Self { description, state: SocketState::Off, current_power_consumption: ZERO_POWER_BITS }
    }

    pub fn get_description(&self) -> (r: String)
        ensures
            r@ == self@.description,
    {
        self.description.clone()
    }

    pub fn set_description(&mut self, new_description: &str)
        ensures
            final(self)@ == (SocketView { description: new_description@, ..old(self)@ }),
    {
        self.description = new_description.to_owned();
    }

    /// `1` when on, `0` when off.
    pub fn get_state(&self) -> (r: u8)
        ensures
            r == (if self@.on { 1u8 } else { 0u8 }),
    {
        match self.state {
            SocketState::On => 1,
            SocketState::Off => 0,
        }
    }

    /// Turns the socket on with the draw `power`, which the caller picks at
    /// random in `[1.0, 30.0)`. Switching on a socket that is on picks anew.
    pub fn switch_on(&mut self, power: u64)
        requires
            is_draw(power),
        ensures
            final(self)@ == old(self)@.switched_on(power),
            final(self)@.wf(),
    {
        self.state = SocketState::On;
        self.current_power_consumption = power;
    }

    /// Turns the socket off; its draw becomes `0.0`.
    pub fn switch_off(&mut self)
        ensures
            final(self)@ == old(self)@.switched_off(),
            final(self)@.wf(),
    {
        self.state = SocketState::Off;
        self.current_power_consumption = ZERO_POWER_BITS;
    }

    /// Bit pattern of the stored draw.
    pub fn get_current_power_consumption(&self) -> (r: u64)
        ensures
            r == self@.power,
    {
        self.current_power_consumption
    }

    /// The `(state, power)` pair that a query reports.
    pub fn current_state(&self) -> (r: (u8, u64))
        ensures
            r == self@.reading(),
    {
        match self.state {
            SocketState::On => (1, self.current_power_consumption),
            SocketState::Off => (0, ZERO_POWER_BITS),
        }
    }
}

/// After a socket is switched off, a query reports `(0, 0.0)`, whatever came
/// before.
pub proof fn lemma_switched_off_reads_off(s: SocketView)
    ensures
        s.switched_off().reading() == (0u8, ZERO_POWER_BITS),
        s.switched_off().wf(),
{
}

/// After a socket is switched on with a draw in `[1.0, 30.0)`, a query reports
/// `(1, p)` with that draw, and `p` lies in `[1.0, 30.0)`.
pub proof fn lemma_switched_on_reads_on(s: SocketView, power: u64)
    requires
        is_draw(power),
    ensures
        s.switched_on(power).reading() == (1u8, power),
        is_draw(s.switched_on(power).reading().1),
        s.switched_on(power).wf(),
{
}

} // verus!
