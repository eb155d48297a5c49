use doip::client::config::Configuration;
use doip::client::context::{diag_data_payload_types, vid_payload_types};
use doip::client::session::ClientSession;
use doip::error::header_negative_requires_shutdown;
use doip::{DoIpError, Received, ReplyData};
use iso13400_2::{
    response, ActiveCode, Diagnostic, DiagnosticNegativeCode, DiagnosticPositiveCode, Eid,
    FurtherAction, Gid, HeaderNegativeCode, LogicAddress, Message, NodeType, Payload, PayloadType,
    PowerMode, RoutingActiveType, SyncStatus, Version,
};

fn session() -> ClientSession {
    ClientSession::new(Configuration::new("127.0.0.1", LogicAddress::from(0x0E80), true).unwrap())
}

fn every_reply_type() -> Vec<PayloadType> {
    vec![
        PayloadType::RespHeaderNegative,
        PayloadType::RespVehicleId,
        PayloadType::RespRoutingActive,
        PayloadType::RespAliveCheck,
        PayloadType::RespEntityStatus,
        PayloadType::RespDiagPowerMode,
        PayloadType::Diagnostic,
        PayloadType::RespDiagPositive,
        PayloadType::RespDiagNegative,
    ]
}

/// Frames a payload as the gateway would, and receives it.
fn receive(version: Version, payload: Payload) -> Received {
    let frame: Vec<u8> = Message { version, payload }.into();
    ClientSession::parse_response(&frame, &every_reply_type()).unwrap()
}

fn vehicle_id_payload() -> Payload {
    let v = response::VehicleID::new(
        "ABCDEFGHIJKLMNOPQ".to_string(),
        LogicAddress::from(0x1001),
        Eid::new(0x0102_0304_0506).unwrap(),
        Gid::new(0x0A0B_0C0D_0E0F).unwrap(),
        FurtherAction::CentralSecurity,
        Some(SyncStatus::VINorGIDNotSync),
    )
    .unwrap();
    Payload::RespVehicleId(v)
}

fn nack(code: HeaderNegativeCode) -> Received {
    receive(Version::Default, Payload::RespHeaderNegative(response::HeaderNegative::new(code)))
}

#[test]
fn first_request_carries_the_default_version() {
    let s = session();
    assert_eq!(s.gateway_version(), Version::Default);
    let ex = s.udp_exchange(s.vehicle_identifier_request()).unwrap();
    assert_eq!(ex.frame, vec![0xFF, 0x00, 0x00, 0x01, 0x00, 0x00, 0x00, 0x00]);
    assert_eq!(ex.expected, vec![PayloadType::RespHeaderNegative, PayloadType::RespVehicleId]);
}

#[test]
fn identification_sets_the_gateway_info() {
    let mut s = session();
    s.vehicle_id_response(receive(Version::ISO13400_2_2012, vehicle_id_payload())).unwrap();
    assert_eq!(s.gateway_version(), Version::ISO13400_2_2012);
    let info = s.gateway_info().unwrap();
    assert_eq!(info.version(), Version::ISO13400_2_2012);
    assert_eq!(info.address(), LogicAddress::from(0x1001));
    assert_eq!(info.eid(), &[1, 2, 3, 4, 5, 6]);
    assert_eq!(info.gid(), &[0x0A, 0x0B, 0x0C, 0x0D, 0x0E, 0x0F]);
    assert_eq!(info.further_act(), FurtherAction::CentralSecurity);
    assert_eq!(info.sync_status(), Some(SyncStatus::VINorGIDNotSync));
    let ex = s.tcp_exchange(s.alive_check_request()).unwrap();
    assert_eq!(ex.frame, vec![0x02, 0xFD, 0x00, 0x07, 0x00, 0x00, 0x00, 0x00]);
}

#[test]
fn refused_identification_leaves_the_session() {
    let mut s = session();
    let reply = receive(Version::ISO13400_2_2012, Payload::RespAliveCheck(response::AliveCheck::new(LogicAddress::from(0x1001))));
    let r = s.vehicle_id_response(reply);
    assert!(matches!(r, Err(DoIpError::UnexpectedResponse { version: Version::ISO13400_2_2012, payload: Payload::RespAliveCheck(_) })));
    assert!(s.gateway_info().is_none());
    let r = s.vehicle_id_response(nack(HeaderNegativeCode::OutOfMemory));
    assert!(matches!(r, Err(DoIpError::HeaderNegativeError(HeaderNegativeCode::OutOfMemory))));
    assert_eq!(s.gateway_version(), Version::Default);
}

#[test]
fn requests_go_on_their_own_transport() {
    let s = session();
    assert!(matches!(s.udp_exchange(s.alive_check_request()), Err(DoIpError::InputError(_))));
    assert!(matches!(s.tcp_exchange(s.entity_status_request()), Err(DoIpError::InputError(_))));
    let ex = s.udp_exchange(s.entity_status_request()).unwrap();
    assert_eq!(ex.frame, vec![0xFF, 0x00, 0x40, 0x01, 0x00, 0x00, 0x00, 0x00]);
    let ex = s.udp_exchange(s.diag_power_mode_request()).unwrap();
    assert_eq!(ex.frame, vec![0xFF, 0x00, 0x40, 0x03, 0x00, 0x00, 0x00, 0x00]);
    assert_eq!(ex.expected, vec![PayloadType::RespHeaderNegative, PayloadType::RespDiagPowerMode]);
    let ex = s.tcp_exchange(s.routing_active_request(RoutingActiveType::Default, None)).unwrap();
    assert_eq!(ex.frame, vec![0xFF, 0x00, 0x00, 0x05, 0x00, 0x00, 0x00, 0x07, 0x0E, 0x80, 0x00, 0x00, 0x00, 0x00, 0x00]);
    assert_eq!(ex.expected, vec![PayloadType::RespHeaderNegative, PayloadType::RespRoutingActive]);
}

#[test]
fn routing_activation_frame_carries_its_arguments() {
    let s = session();
    let ex = s.tcp_exchange(s.routing_active_request(RoutingActiveType::CentralSecurity, Some(0xDEADBEEF))).unwrap();
    assert_eq!(
        ex.frame,
        vec![0xFF, 0x00, 0x00, 0x05, 0x00, 0x00, 0x00, 0x0B, 0x0E, 0x80, 0xE0, 0, 0, 0, 0, 0xDE, 0xAD, 0xBE, 0xEF]
    );
}

#[test]
fn diagnostic_frame_carries_source_target_and_data() {
    let s = session();
    let ex = s.tcp_exchange(s.diagnostic_request(LogicAddress::from(0x1001), vec![0x10, 0x01])).unwrap();
    assert_eq!(ex.frame, vec![0xFF, 0x00, 0x80, 0x01, 0x00, 0x00, 0x00, 0x06, 0x0E, 0x80, 0x10, 0x01, 0x10, 0x01]);
    assert_eq!(
        ex.expected,
        vec![PayloadType::RespHeaderNegative, PayloadType::RespDiagPositive, PayloadType::RespDiagNegative]
    );
}

#[test]
fn vin_request_needs_seventeen_bytes() {
    let s = session();
    assert!(matches!(s.vehicle_with_vin_request("ABCDEFGHIJKLMNOP"), Err(DoIpError::Iso13400Error(_))));
    let r = s.vehicle_with_vin_request("ABCDEFGHIJKLMNOPQ").unwrap();
    let ex = s.udp_exchange(r).unwrap();
    assert_eq!(&ex.frame[..8], &[0xFF, 0x00, 0x00, 0x03, 0x00, 0x00, 0x00, 0x11]);
    assert_eq!(&ex.frame[8..], b"ABCDEFGHIJKLMNOPQ");
}

#[test]
fn eid_request_frame() {
    let s = session();
    let ex = s.udp_exchange(s.vehicle_with_eid_request([1, 2, 3, 4, 5, 6])).unwrap();
    assert_eq!(ex.frame, vec![0xFF, 0x00, 0x00, 0x02, 0x00, 0x00, 0x00, 0x06, 1, 2, 3, 4, 5, 6]);
}

#[test]
fn parse_response_accepts_only_expected_types() {
    let frame: Vec<u8> = Message { version: Version::ISO13400_2_2012, payload: vehicle_id_payload() }.into();
    let r = ClientSession::parse_response(&frame, &vid_payload_types()).unwrap();
    assert_eq!(r.version, Version::ISO13400_2_2012);
    assert_eq!(r.payload.payload_type(), PayloadType::RespVehicleId);
    assert!(matches!(r.data, ReplyData::VehicleId(_, _, _, FurtherAction::CentralSecurity, _)));
    let r = ClientSession::parse_response(&frame, &diag_data_payload_types());
    assert!(matches!(r, Err(DoIpError::PayloadTypeError(PayloadType::RespVehicleId))));
    let r = ClientSession::parse_response(&frame[..7], &vid_payload_types());
    assert!(matches!(r, Err(DoIpError::Iso13400Error(_))));
    let mut bad = frame.clone();
    bad[1] = 0x00;
    assert!(matches!(ClientSession::parse_response(&bad, &vid_payload_types()), Err(DoIpError::Iso13400Error(_))));
}

#[test]
fn routing_activation_codes() {
    for code in [ActiveCode::Activated, ActiveCode::Success, ActiveCode::NeedConfirm] {
        assert_eq!(ClientSession::activation_status(code).unwrap(), (code, None));
    }
    for code in [
        ActiveCode::SourceAddressUnknown,
        ActiveCode::SourceAddressInvalid,
        ActiveCode::SocketInvalid,
        ActiveCode::WithoutAuth,
        ActiveCode::VehicleRefused,
        ActiveCode::Unsupported,
        ActiveCode::TLSRequired,
    ] {
        assert!(matches!(ClientSession::activation_status(code), Err(DoIpError::ActiveError(c)) if c == code));
    }
    assert_eq!(ClientSession::activation_status(ActiveCode::VMSpecific(0xE5)).unwrap(), (ActiveCode::VMSpecific(0xE5), Some(0xE5)));
    assert_eq!(ClientSession::activation_status(ActiveCode::Reserved(0x30)).unwrap(), (ActiveCode::Reserved(0x30), Some(0x30)));
}

#[test]
fn routing_activation_reply() {
    let ok = response::RoutingActive::new(LogicAddress::from(0x0E80), LogicAddress::from(0x1001), ActiveCode::Success, None);
    let r = ClientSession::routing_active_response(receive(Version::Default, Payload::RespRoutingActive(ok)));
    assert_eq!(r.unwrap(), (ActiveCode::Success, None));
    // A reply addressed to another tester is read the same way.
    let other = response::RoutingActive::new(LogicAddress::from(0x0E81), LogicAddress::from(0x1001), ActiveCode::Success, None);
    let r = ClientSession::routing_active_response(receive(Version::Default, Payload::RespRoutingActive(other)));
    assert_eq!(r.unwrap(), (ActiveCode::Success, None));
    let vm = response::RoutingActive::new(LogicAddress::from(0x0E80), LogicAddress::from(0x1001), ActiveCode::VMSpecific(0xE7), None);
    let r = ClientSession::routing_active_response(receive(Version::Default, Payload::RespRoutingActive(vm)));
    assert_eq!(r.unwrap(), (ActiveCode::VMSpecific(0xE7), Some(0xE7)));
    let refused = response::RoutingActive::new(LogicAddress::from(0x0E80), LogicAddress::from(0x1001), ActiveCode::WithoutAuth, None);
    let r = ClientSession::routing_active_response(receive(Version::Default, Payload::RespRoutingActive(refused)));
    assert!(matches!(r, Err(DoIpError::ActiveError(ActiveCode::WithoutAuth))));
}

#[test]
fn header_negative_shutdown_decision() {
    assert!(header_negative_requires_shutdown(HeaderNegativeCode::IncorrectPatternFormat));
    assert!(header_negative_requires_shutdown(HeaderNegativeCode::InvalidPayloadLength));
    assert!(!header_negative_requires_shutdown(HeaderNegativeCode::UnknownPayloadTYpe));
    assert!(!header_negative_requires_shutdown(HeaderNegativeCode::MessageTooLarge));
    assert!(!header_negative_requires_shutdown(HeaderNegativeCode::OutOfMemory));
    let e = ClientSession::alive_check_response(nack(HeaderNegativeCode::InvalidPayloadLength)).unwrap_err();
    assert!(matches!(e, DoIpError::HeaderNegativeError(HeaderNegativeCode::InvalidPayloadLength)));
    assert!(e.closes_connection());
    let e = ClientSession::routing_active_response(nack(HeaderNegativeCode::MessageTooLarge)).unwrap_err();
    assert!(matches!(e, DoIpError::HeaderNegativeError(HeaderNegativeCode::MessageTooLarge)));
    assert!(!e.closes_connection());
    let e = ClientSession::diagnostic_ack_response(nack(HeaderNegativeCode::IncorrectPatternFormat)).unwrap_err();
    assert!(e.closes_connection());
    assert!(!DoIpError::InputError("x".to_string()).closes_connection());
}

#[test]
fn alive_check_and_status_replies() {
    let r = ClientSession::alive_check_response(receive(Version::Default, Payload::RespAliveCheck(response::AliveCheck::new(LogicAddress::from(0x1001)))));
    assert!(r.is_ok());
    let status = response::EntityStatus::new(NodeType::Gateway, 4, 1, Some(4096));
    let r = ClientSession::entity_status_response(receive(Version::Default, Payload::RespEntityStatus(status.clone()))).unwrap();
    assert_eq!(r, status);
    let mode = response::DiagnosticPowerMode::new(PowerMode::NotReady);
    let r = ClientSession::diag_power_mode_response(receive(Version::Default, Payload::RespDiagPowerMode(mode))).unwrap();
    assert_eq!(r, PowerMode::NotReady);
    let r = ClientSession::diag_power_mode_response(receive(Version::Default, Payload::RespEntityStatus(status)));
    assert!(matches!(r, Err(DoIpError::UnexpectedResponse { .. })));
}

#[test]
fn diagnostic_acknowledges() {
    let pos = response::DiagnosticPositive::new(LogicAddress::from(0x1001), LogicAddress::from(0x0E80), DiagnosticPositiveCode::Confirm, vec![]);
    let next = ClientSession::diagnostic_ack_response(receive(Version::Default, Payload::RespDiagPositive(pos))).unwrap();
    assert_eq!(next, vec![PayloadType::Diagnostic]);
    let neg = response::DiagnosticNegative::new(
        LogicAddress::from(0x1001),
        LogicAddress::from(0x0E80),
        DiagnosticNegativeCode::TargetUnreachable,
        vec![0x22, 0xF1, 0x90, 0x0A],
    );
    match ClientSession::diagnostic_ack_response(receive(Version::Default, Payload::RespDiagNegative(neg))) {
        Err(DoIpError::DiagnosticNegativeError { code, data }) => {
            assert_eq!(code, DiagnosticNegativeCode::TargetUnreachable);
            assert_eq!(data, "22f1900a");
        }
        other => panic!("unexpected outcome: {:?}", other),
    }
}

#[test]
fn diagnostic_data_is_decoded() {
    let msg = Diagnostic::new(LogicAddress::from(0x1001), LogicAddress::from(0x0E80), vec![0x7F, 0x10, 0x12]);
    let resp = ClientSession::diagnostic_data_response(receive(Version::Default, Payload::Diagnostic(msg))).unwrap();
    assert!(resp.is_negative());
    let empty = Diagnostic::new(LogicAddress::from(0x1001), LogicAddress::from(0x0E80), vec![]);
    let r = ClientSession::diagnostic_data_response(receive(Version::Default, Payload::Diagnostic(empty)));
    assert!(matches!(r, Err(DoIpError::Iso14229Error(_))));
}

#[test]
fn short_writes_are_detected() {
    assert!(ClientSession::frame_fully_written(8, 8));
    assert!(!ClientSession::frame_fully_written(5, 8));
}

#[test]
fn gateway_version_follows_the_last_identification() {
    let mut s = session();
    assert!(s.vehicle_id_response(nack(HeaderNegativeCode::OutOfMemory)).is_err());
    assert_eq!(s.gateway_version(), Version::Default);
    s.vehicle_id_response(receive(Version::ISO13400_2_2012, vehicle_id_payload())).unwrap();
    assert!(s.vehicle_id_response(nack(HeaderNegativeCode::MessageTooLarge)).is_err());
    assert_eq!(s.gateway_version(), Version::ISO13400_2_2012);
    s.vehicle_id_response(receive(Version::ISO13400_2_2019, vehicle_id_payload())).unwrap();
    assert_eq!(s.gateway_version(), Version::ISO13400_2_2019);
    let ex = s.udp_exchange(s.entity_status_request()).unwrap();
    assert_eq!(&ex.frame[..4], &[0x03, 0xFC, 0x40, 0x01]);
}
