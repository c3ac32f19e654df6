//! The control panel's decisions: what it shows and which call it makes
//! next, for each message that reaches it. Rendering and running the calls
//! belong to the user interface around it.
use vstd::prelude::*;

use crate::client::ClientError;

verus! {

/// The status line of the panel.
#[derive(Clone, Copy, Debug, PartialEq, Eq, Structural)]
pub enum SyncStatus {
    NotConnected,
    Synced,
}

impl SyncStatus {
    pub open spec fn label(self) -> Seq<char> {
        match self {
            SyncStatus::NotConnected => "Not connected"@,
            SyncStatus::Synced => "Synced"@,
        }
    }

    pub fn to_string(&self) -> (r: String)
        ensures
            r@ == self.label(),
    {
        match self {
            SyncStatus::NotConnected => "Not connected".to_owned(),
            SyncStatus::Synced => "Synced".to_owned(),
        }
    }
}

/// An input event that reaches the panel.
#[derive(Clone, Copy, Debug, PartialEq, Eq, Structural)]
pub enum InputEvent {
    EscapePressed,
    Other,
}

/// What reaches the panel: an input event, the result of a call it made, or
/// the user's toggle.
#[derive(Clone, Copy, Debug)]
pub enum Message {
    EventOccurred(InputEvent),
    /// A query's result.
    Synced(Result<(u8, u64), ClientError>),
    /// A switch call's result (on or off).
    SwitchedOn(Result<(), ClientError>),
    Toggle,
}

/// The call that the panel asks to be made next.
#[derive(Clone, Copy, Debug, PartialEq, Eq, Structural)]
pub enum Task {
    Nothing,
    QueryState,
    SwitchOn,
    SwitchOff,
}

/// What the panel shows: the switch's position, the bit pattern of the power
/// draw, the status line, and whether the user asked to leave.
#[derive(Clone, Copy, Debug, PartialEq, Eq, Structural)]
pub struct WebSocket {
    pub state: bool,
    pub power: u64,
    pub status: SyncStatus,
    pub should_exit: bool,
}

impl WebSocket {
    /// The panel and the call it makes after `message`.
    pub open spec fn next(self, message: Message) -> (WebSocket, Task) {
        match message {
            Message::Synced(Ok((state, power))) => (
                WebSocket { state: state == 1, power, status: SyncStatus::Synced, ..self },
                Task::Nothing,
            ),
            Message::Synced(Err(_)) => (
                WebSocket { status: SyncStatus::NotConnected, ..self },
                Task::Nothing,
            ),
            Message::Toggle => if self.state {
                (WebSocket { state: false, ..self }, Task::SwitchOff)
            } else {
                (WebSocket { state: true, ..self }, Task::SwitchOn)
            },
            Message::SwitchedOn(Ok(())) => (self, Task::QueryState),
            Message::SwitchedOn(Err(_)) => (self, Task::Nothing),
            Message::EventOccurred(InputEvent::EscapePressed) => (
                WebSocket { should_exit: true, ..self },
                Task::Nothing,
            ),
            Message::EventOccurred(InputEvent::Other) => (self, Task::Nothing),
        }
    }

    /// A panel that shows the socket off and not connected, and the query it
    /// makes first.
    pub fn new() -> (r: (WebSocket, Task))
        ensures
            r.0 == (WebSocket {
                state: false,
                power: 0,
                status: SyncStatus::NotConnected,
                should_exit: false,
            }),
            r.1 == Task::QueryState,
    {
        (
            WebSocket {
                state: false,
                power: 0,
                status: SyncStatus::NotConnected,
                should_exit: false,
            },
            Task::QueryState,
        )
    }

    /// Takes in `message` and returns the call to make next.
    pub fn update(&mut self, message: Message) -> (t: Task)
        ensures
            (*final(self), t) == old(self).next(message),
    {
        match message {
            Message::Synced(result) => {
                match result {
                    Ok((state, power)) => {
                        self.state = state == 1;
                        self.power = power;
                        self.status = SyncStatus::Synced;
                    },
                    Err(_) => {
                        self.status = SyncStatus::NotConnected;
                    },
                }
                Task::Nothing
            },
            Message::Toggle => {
                if self.state {
                    self.state = false;
                    Task::SwitchOff
                } else {
                    self.state = true;
                    Task::SwitchOn
                }
            },
            Message::SwitchedOn(result) => {
                if result.is_ok() {
                    Task::QueryState
                } else {
                    Task::Nothing
                }
            },
            Message::EventOccurred(event) => {
                if event == InputEvent::EscapePressed {
                    self.should_exit = true;
                }
                Task::Nothing
            },
        }
    }
}

} // verus!
