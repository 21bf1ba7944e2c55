use esdriver::command::Cmd;
use esdriver::driver::{heartbeat_timeout_error, DriverError};
use esdriver::package::Pkg;
use esdriver::types::{Credentials, Endpoint, Retry, Settings};

#[test]
fn opcode_catalogue_encodes() {
    assert_eq!(Cmd::HeartbeatRequest.to_u8(), 0x01);
    assert_eq!(Cmd::HeartbeatResponse.to_u8(), 0x02);
    assert_eq!(Cmd::IdentifyClient.to_u8(), 0xF5);
    assert_eq!(Cmd::ClientIdentified.to_u8(), 0xF6);
    assert_eq!(Cmd::Authenticate.to_u8(), 0xF2);
    assert_eq!(Cmd::Authenticated.to_u8(), 0xF3);
    assert_eq!(Cmd::NotAuthenticated.to_u8(), 0xF4);
    assert_eq!(Cmd::WriteEvents.to_u8(), 0x82);
    assert_eq!(Cmd::WriteEventsCompleted.to_u8(), 0x83);
    assert_eq!(Cmd::ReadEvent.to_u8(), 0xB0);
    assert_eq!(Cmd::ReadEventCompleted.to_u8(), 0xB1);
    assert_eq!(Cmd::TransactionStart.to_u8(), 0x84);
    assert_eq!(Cmd::TransactionStartCompleted.to_u8(), 0x85);
    assert_eq!(Cmd::TransactionWrite.to_u8(), 0x86);
    assert_eq!(Cmd::TransactionWriteCompleted.to_u8(), 0x87);
    assert_eq!(Cmd::TransactionCommit.to_u8(), 0x88);
    assert_eq!(Cmd::TransactionCommitCompleted.to_u8(), 0x89);
    assert_eq!(Cmd::Unknown(0x7A).to_u8(), 0x7A);
}

#[test]
fn every_opcode_byte_round_trips() {
    let mut b: u8 = 0;
    loop {
        assert_eq!(Cmd::from_u8(b).to_u8(), b);
        if b == 255 {
            break;
        }
        b += 1;
    }
}

#[test]
fn unknown_opcodes_kept_verbatim() {
    assert!(matches!(Cmd::from_u8(0x7A), Cmd::Unknown(0x7A)));
    assert!(matches!(Cmd::from_u8(0x00), Cmd::Unknown(0x00)));
    assert!(matches!(Cmd::from_u8(0xFF), Cmd::Unknown(0xFF)));
    assert!(matches!(Cmd::from_u8(0x01), Cmd::HeartbeatRequest));
}

#[test]
fn cmd_equality_follows_opcode_byte() {
    assert!(Cmd::HeartbeatRequest == Cmd::Unknown(0x01));
    assert!(Cmd::HeartbeatRequest != Cmd::HeartbeatResponse);
    assert!(Cmd::Unknown(0x33) == Cmd::Unknown(0x33));
}

#[test]
fn retry_bound_converts() {
    assert_eq!(Retry::Limited(7).to_u32(), 7);
    assert_eq!(Retry::Infinite.to_u32(), u32::MAX);
}

#[test]
fn settings_defaults() {
    let s = Settings::default();
    assert!(s.connection_name.is_none());
    assert!(s.default_user.is_none());
    assert_eq!(s.heartbeat_delay, 750);
    assert_eq!(s.heartbeat_timeout, 1500);
    assert_eq!(s.operation_timeout, 7000);
    assert_eq!(s.operation_check_period, 1000);
    assert_eq!(s.connection_retry, Retry::Limited(3));
    assert_eq!(s.operation_retry, 3);
}

#[test]
fn heartbeat_timeout_error_kind() {
    assert_eq!(heartbeat_timeout_error(), DriverError::HeartbeatTimeout);
}

#[test]
fn identify_payload_carries_name_bytes() {
    let name = Some(String::from("caf\u{e9}-node"));
    let pkg = Pkg::identify_client(&name);
    assert_eq!(pkg.cmd, Cmd::IdentifyClient);
    assert_eq!(pkg.payload, "caf\u{e9}-node".as_bytes().to_vec());
    assert!(pkg.creds_opt.is_none());

    let anon = Pkg::identify_client(&None);
    assert!(anon.payload.is_empty());
}

#[test]
fn authenticate_carries_credentials() {
    let creds = Credentials { login: String::from("u"), password: String::from("p") };
    let pkg = Pkg::authenticate(creds);
    assert_eq!(pkg.cmd, Cmd::Authenticate);
    let held = pkg.creds_opt.expect("credentials");
    assert_eq!(held.login, "u");
    assert_eq!(held.password, "p");
    assert!(pkg.payload.is_empty());
}

#[test]
fn copy_headers_only_keeps_headers_drops_payload() {
    let mut pkg = Pkg::new(Cmd::WriteEvents, 42);
    pkg.payload = vec![1, 2, 3];
    let hdr = pkg.copy_headers_only();
    assert_eq!(hdr.cmd, Cmd::WriteEvents);
    assert_eq!(hdr.correlation, 42);
    assert!(hdr.payload.is_empty());
    assert!(hdr.creds_opt.is_none());
}

#[test]
fn fresh_correlations_differ() {
    let a = Pkg::heartbeat_request();
    let b = Pkg::heartbeat_request();
    assert_ne!(a.correlation, b.correlation);
    assert_eq!(a.cmd, Cmd::HeartbeatRequest);
    assert!(a.payload.is_empty());
}

#[test]
fn endpoint_is_plain_data() {
    let e = Endpoint { host: 0x7F000001, port: 1113 };
    assert_eq!(e, Endpoint { host: 0x7F000001, port: 1113 });
    assert_ne!(e, Endpoint { host: 0x7F000001, port: 2113 });
}
