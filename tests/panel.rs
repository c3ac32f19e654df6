use smart_socket::client::ClientError;
use smart_socket::panel::{InputEvent, Message, SyncStatus, Task, WebSocket};

fn fresh() -> WebSocket {
    let (panel, task) = WebSocket::new();
    assert_eq!(task, Task::QueryState);
    panel
}

#[test]
fn new_panel_is_off_and_queries() {
    let panel = fresh();
    assert!(!panel.state);
    assert_eq!(panel.power, 0);
    assert_eq!(panel.status, SyncStatus::NotConnected);
    assert!(!panel.should_exit);
}

#[test]
fn synced_shows_state_and_power() {
    let mut panel = fresh();
    let t = panel.update(Message::Synced(Ok((1, 12.0f64.to_bits()))));
    assert_eq!(t, Task::Nothing);
    assert!(panel.state);
    assert_eq!(f64::from_bits(panel.power), 12.0);
    assert_eq!(panel.status, SyncStatus::Synced);
}

#[test]
fn failed_sync_shows_not_connected() {
    let mut panel = fresh();
    panel.update(Message::Synced(Ok((1, 3.0f64.to_bits()))));
    let t = panel.update(Message::Synced(Err(ClientError::Transport)));
    assert_eq!(t, Task::Nothing);
    assert_eq!(panel.status, SyncStatus::NotConnected);
    assert!(panel.state);
    assert_eq!(panel.power, 3.0f64.to_bits());
}

#[test]
fn toggle_switches_and_then_requeries() {
    let mut panel = fresh();
    assert_eq!(panel.update(Message::Toggle), Task::SwitchOn);
    assert!(panel.state);
    assert_eq!(panel.update(Message::SwitchedOn(Ok(()))), Task::QueryState);
    assert_eq!(panel.update(Message::Toggle), Task::SwitchOff);
    assert!(!panel.state);
    assert_eq!(panel.update(Message::SwitchedOn(Err(ClientError::Transport))), Task::Nothing);
}

#[test]
fn escape_asks_to_leave() {
    let mut panel = fresh();
    assert_eq!(panel.update(Message::EventOccurred(InputEvent::Other)), Task::Nothing);
    assert!(!panel.should_exit);
    assert_eq!(panel.update(Message::EventOccurred(InputEvent::EscapePressed)), Task::Nothing);
    assert!(panel.should_exit);
}

#[test]
fn status_names() {
    assert_eq!(SyncStatus::NotConnected.to_string(), "Not connected");
    assert_eq!(SyncStatus::Synced.to_string(), "Synced");
}
