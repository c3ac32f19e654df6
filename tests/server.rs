use smart_socket::client::SocketClient;
use smart_socket::device::Socket;
use smart_socket::server::{Reply, SocketServer};

fn query(socket: &mut Socket) -> (u8, f64) {
    match SocketServer::handle_request(b"cmd0", socket, 5.0f64.to_bits()) {
        Reply::Status(bytes) => {
            let (state, power) = SocketClient::read_state(&bytes).unwrap();
            (state, f64::from_bits(power))
        }
        other => panic!("no status for a query: {:?}", other),
    }
}

#[test]
fn fresh_device_query_reads_off() {
    let mut s = Socket::new();
    assert_eq!(query(&mut s), (0, 0.0));
}

#[test]
fn switch_on_query_reads_on() {
    let mut s = Socket::new();
    let r = SocketServer::handle_request(b"cmd1", &mut s, 22.75f64.to_bits());
    assert_eq!(r, Reply::SwitchedOn);
    let (state, power) = query(&mut s);
    assert_eq!(state, 1);
    assert_eq!(power, 22.75);
    assert!((1.0..30.0).contains(&power));
}

#[test]
fn switch_on_off_query_reads_off() {
    let mut s = Socket::new();
    SocketServer::handle_request(b"cmd1", &mut s, 9.0f64.to_bits());
    let r = SocketServer::handle_request(b"cmd2", &mut s, 9.0f64.to_bits());
    assert_eq!(r, Reply::SwitchedOff);
    assert_eq!(query(&mut s), (0, 0.0));
}

#[test]
fn repeated_queries_agree() {
    let mut s = Socket::new();
    SocketServer::handle_request(b"cmd1", &mut s, 13.5f64.to_bits());
    let a = SocketServer::handle_request(b"cmd0", &mut s, 2.0f64.to_bits());
    let b = SocketServer::handle_request(b"cmd0", &mut s, 27.0f64.to_bits());
    assert_eq!(a, b);
    assert_eq!(query(&mut s), (1, 13.5));
    assert_eq!(query(&mut s), (1, 13.5));
}

#[test]
fn query_answers_with_status_bytes() {
    let mut s = Socket::new();
    SocketServer::handle_request(b"cmd1", &mut s, 1.0f64.to_bits());
    let r = SocketServer::handle_request(b"cmd0", &mut s, 3.0f64.to_bits());
    assert_eq!(r, Reply::Status([0x72, 0x73, 0x74, 1, 0x3f, 0xf0, 0, 0, 0, 0, 0, 0]));
}

#[test]
fn unknown_command_is_ignored() {
    let mut s = Socket::new();
    SocketServer::handle_request(b"cmd1", &mut s, 8.0f64.to_bits());
    let r = SocketServer::handle_request(b"cmd9", &mut s, 3.0f64.to_bits());
    assert_eq!(r, Reply::Ignored);
    assert_eq!(query(&mut s), (1, 8.0));
    let r = SocketServer::handle_request(b"zzzz", &mut s, 3.0f64.to_bits());
    assert_eq!(r, Reply::Ignored);
    assert_eq!(s.current_state(), (1, 8.0f64.to_bits()));
}
