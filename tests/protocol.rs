use smart_socket::protocol::{Command, DecodeError, StatusResponse};

#[test]
fn commands_encode_as_ascii() {
    assert_eq!(&Command::QueryState.encode(), b"cmd0");
    assert_eq!(&Command::SwitchOn.encode(), b"cmd1");
    assert_eq!(&Command::SwitchOff.encode(), b"cmd2");
}

#[test]
fn commands_decode() {
    assert_eq!(Command::decode(b"cmd0"), Some(Command::QueryState));
    assert_eq!(Command::decode(b"cmd1"), Some(Command::SwitchOn));
    assert_eq!(Command::decode(b"cmd2"), Some(Command::SwitchOff));
}

#[test]
fn unknown_commands_decode_to_none() {
    assert_eq!(Command::decode(b"cmd3"), None);
    assert_eq!(Command::decode(b"xmd0"), None);
    assert_eq!(Command::decode(b"CMD0"), None);
    assert_eq!(Command::decode(&[0, 0, 0, 0]), None);
}

#[test]
fn response_layout() {
    let r = StatusResponse { state: 1, power: 1.0f64.to_bits() };
    let bytes = r.encode();
    let mut expected = b"rst".to_vec();
    expected.push(1);
    expected.extend_from_slice(&1.0f64.to_be_bytes());
    assert_eq!(bytes.to_vec(), expected);
    assert_eq!(bytes, [0x72, 0x73, 0x74, 1, 0x3f, 0xf0, 0, 0, 0, 0, 0, 0]);
}

#[test]
fn response_round_trip() {
    for (state, power) in [
        (0u8, 0.0f64),
        (1, 1.0),
        (1, 29.99),
        (1, 17.123456789),
        (0, -0.0),
        (1, f64::MAX),
        (1, f64::MIN_POSITIVE),
    ] {
        let r = StatusResponse { state, power: power.to_bits() };
        let back = StatusResponse::decode(&r.encode()).unwrap();
        assert_eq!(back, r);
        assert_eq!(f64::from_bits(back.power).to_bits(), power.to_bits());
    }
    let nan = StatusResponse { state: 1, power: f64::NAN.to_bits() };
    assert_eq!(StatusResponse::decode(&nan.encode()), Ok(nan));
}

#[test]
fn zero_response_decodes_off() {
    let mut bytes = [0u8; 12];
    bytes[..3].copy_from_slice(b"rst");
    let r = StatusResponse::decode(&bytes).unwrap();
    assert_eq!(r.state, 0);
    assert_eq!(f64::from_bits(r.power), 0.0);
}

#[test]
fn bad_marker_is_refused() {
    let mut bytes = [0u8; 12];
    bytes[..3].copy_from_slice(b"bad");
    assert_eq!(StatusResponse::decode(&bytes), Err(DecodeError::BadMarker));
    bytes[..3].copy_from_slice(b"rsT");
    assert_eq!(StatusResponse::decode(&bytes), Err(DecodeError::BadMarker));
}
