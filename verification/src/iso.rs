//! The items of the ISO 13400-2, ISO 14229-1 and hex crates that the library
//! uses, with what the library relies on about them.
use vstd::prelude::*;
use iso13400_2::{
    request, response, ActiveCode, DiagnosticNegativeCode, Eid, FurtherAction, Gid,
    HeaderNegativeCode, Iso13400Error, LogicAddress, Message, Payload, PayloadType, PowerMode,
    RoutingActiveType, SyncStatus, Version, Diagnostic,
};
use crate::client::message::{
    data_matches_type, decode_outcome_view, request_frameable, request_type, Received, ReceivedView, ReplyData,
    Request, RequestView,
};

verus! {

/// The DoIP protocol version of a frame. Declared with its variants visible:
/// each variant is plain data, so verified code matches on them directly.
#[verifier::external_type_specification]
pub struct ExVersion(iso13400_2::Version);

/// A logical address of a DoIP node (variants visible, plain data).
#[verifier::external_type_specification]
pub struct ExLogicAddress(iso13400_2::LogicAddress);

/// A routing activation response code (variants visible, plain data).
#[verifier::external_type_specification]
pub struct ExActiveCode(iso13400_2::ActiveCode);

/// A generic header negative acknowledge code (variants visible, plain data).
#[verifier::external_type_specification]
pub struct ExHeaderNegativeCode(iso13400_2::HeaderNegativeCode);

/// A diagnostic power mode (variants visible, plain data).
#[verifier::external_type_specification]
pub struct ExPowerMode(iso13400_2::PowerMode);

/// A DoIP payload type (variants visible, no fields).
#[verifier::external_type_specification]
pub struct ExPayloadType(iso13400_2::PayloadType);

/// A routing activation type (variants visible, plain data).
#[verifier::external_type_specification]
pub struct ExRoutingActiveType(iso13400_2::RoutingActiveType);

/// A further action code of a vehicle announcement (variants visible).
#[verifier::external_type_specification]
pub struct ExFurtherAction(iso13400_2::FurtherAction);

/// A VIN/GID synchronisation status (variants visible).
#[verifier::external_type_specification]
pub struct ExSyncStatus(iso13400_2::SyncStatus);

/// A diagnostic message negative acknowledge code (variants visible).
#[verifier::external_type_specification]
pub struct ExDiagnosticNegativeCode(iso13400_2::DiagnosticNegativeCode);

/// An entity or group identifier (EID/GID); its field is private.
#[verifier::external_type_specification]
#[verifier::external_body]
pub struct ExId(iso13400_2::Eid);

/// The payload of a DoIP frame: which variant it is, is visible; the
/// messages that the variants carry are opaque.
#[verifier::external_type_specification]
pub struct ExPayload(iso13400_2::Payload);

/// A DoIP frame: its version and payload (both fields public).
#[verifier::external_type_specification]
pub struct ExMessage(iso13400_2::Message);

/// A vehicle identification request; it has no fields.
#[verifier::external_type_specification]
pub struct ExReqVehicleId(request::VehicleID);

/// A vehicle identification request with an EID; its field is private.
#[verifier::external_type_specification]
#[verifier::external_body]
pub struct ExReqVehicleIdWithEid(request::VehicleIDWithEID);

/// A vehicle identification request with a VIN; its field is private.
#[verifier::external_type_specification]
#[verifier::external_body]
pub struct ExReqVehicleIdWithVin(request::VehicleIDWithVIN);

/// An entity status request; it has no fields.
#[verifier::external_type_specification]
pub struct ExReqEntityStatus(request::EntityStatus);

/// A diagnostic power mode request; it has no fields.
#[verifier::external_type_specification]
pub struct ExReqDiagPowerMode(request::DiagnosticPowerMode);

/// A routing activation request; its fields are private.
#[verifier::external_type_specification]
#[verifier::external_body]
pub struct ExReqRoutingActive(request::RoutingActive);

/// An alive check request; it has no fields.
#[verifier::external_type_specification]
pub struct ExReqAliveCheck(request::AliveCheck);

/// A generic header negative acknowledge; its field is private.
#[verifier::external_type_specification]
#[verifier::external_body]
pub struct ExRespHeaderNegative(response::HeaderNegative);

/// A vehicle identification response; its fields are private.
#[verifier::external_type_specification]
#[verifier::external_body]
pub struct ExRespVehicleId(response::VehicleID);

/// A routing activation response; its fields are private.
#[verifier::external_type_specification]
#[verifier::external_body]
pub struct ExRespRoutingActive(response::RoutingActive);

/// An alive check response; its field is private.
#[verifier::external_type_specification]
#[verifier::external_body]
pub struct ExRespAliveCheck(response::AliveCheck);

/// An entity status response; its fields are private.
#[verifier::external_type_specification]
#[verifier::external_body]
pub struct ExRespEntityStatus(response::EntityStatus);

/// A diagnostic power mode response; its field is private.
#[verifier::external_type_specification]
#[verifier::external_body]
pub struct ExRespDiagPowerMode(response::DiagnosticPowerMode);

/// A diagnostic message; its addresses are private.
#[verifier::external_type_specification]
#[verifier::external_body]
pub struct ExDiagnostic(iso13400_2::Diagnostic);

/// A diagnostic message positive acknowledge; its fields are private.
#[verifier::external_type_specification]
#[verifier::external_body]
pub struct ExRespDiagPositive(response::DiagnosticPositive);

/// A diagnostic message negative acknowledge; its fields are private.
#[verifier::external_type_specification]
#[verifier::external_body]
pub struct ExRespDiagNegative(response::DiagnosticNegative);

/// A decoded ISO 14229-1 (UDS) response.
#[verifier::external_type_specification]
#[verifier::external_body]
pub struct ExUdsResponse(iso14229_1::response::Response);

/// An error of the ISO 14229-1 crate.
#[verifier::external_type_specification]
#[verifier::external_body]
pub struct ExIso14229Error(iso14229_1::Iso14229Error);

/// An error of the ISO 13400-2 crate.
#[verifier::external_type_specification]
#[verifier::external_body]
pub struct ExIso13400Error(iso13400_2::Iso13400Error);

/// An error of the operating system's sockets.
#[verifier::external_type_specification]
#[verifier::external_body]
pub struct ExIoError(std::io::Error);

// ---------------------------------------------------------------------------
// Tables of the protocol, as the ISO 13400-2 crate writes them.
// ---------------------------------------------------------------------------

/// The byte that stands for a protocol version in a frame header
/// (`From<Version> for u8`).
pub open spec fn version_byte(v: Version) -> u8 {
    match v {
        Version::ISO13400_2_2010 => 0x01,
        Version::ISO13400_2_2012 => 0x02,
        Version::ISO13400_2_2019 => 0x03,
        Version::Reserved(b) => b,
        Version::Default => 0xFF,
    }
}

/// The 16-bit code of a payload type in a frame header
/// (`From<PayloadType> for u16`, Table 17 of ISO 13400-2).
pub open spec fn payload_type_code(t: PayloadType) -> u16 {
    match t {
        PayloadType::RespHeaderNegative => 0x0000,
        PayloadType::ReqVehicleId => 0x0001,
        PayloadType::ReqVehicleWithEid => 0x0002,
        PayloadType::ReqVehicleWithVIN => 0x0003,
        PayloadType::RespVehicleId => 0x0004,
        PayloadType::ReqRoutingActive => 0x0005,
        PayloadType::RespRoutingActive => 0x0006,
        PayloadType::ReqAliveCheck => 0x0007,
        PayloadType::RespAliveCheck => 0x0008,
        PayloadType::ReqEntityStatus => 0x4001,
        PayloadType::RespEntityStatus => 0x4002,
        PayloadType::ReqDiagPowerMode => 0x4003,
        PayloadType::RespDiagPowerMode => 0x4004,
        PayloadType::Diagnostic => 0x8001,
        PayloadType::RespDiagPositive => 0x8002,
        PayloadType::RespDiagNegative => 0x8003,
    }
}

/// The payload type of a payload (`Payload::payload_type`).
pub open spec fn payload_type_of(p: Payload) -> PayloadType {
    match p {
        Payload::RespHeaderNegative(_) => PayloadType::RespHeaderNegative,
        Payload::ReqVehicleId(_) => PayloadType::ReqVehicleId,
        Payload::ReqVehicleWithEid(_) => PayloadType::ReqVehicleWithEid,
        Payload::ReqVehicleWithVIN(_) => PayloadType::ReqVehicleWithVIN,
        Payload::RespVehicleId(_) => PayloadType::RespVehicleId,
        Payload::ReqRoutingActive(_) => PayloadType::ReqRoutingActive,
        Payload::RespRoutingActive(_) => PayloadType::RespRoutingActive,
        Payload::ReqAliveCheck(_) => PayloadType::ReqAliveCheck,
        Payload::RespAliveCheck(_) => PayloadType::RespAliveCheck,
        Payload::ReqEntityStatus(_) => PayloadType::ReqEntityStatus,
        Payload::ReqDiagPowerMode(_) => PayloadType::ReqDiagPowerMode,
        Payload::RespEntityStatus(_) => PayloadType::RespEntityStatus,
        Payload::RespDiagPowerMode(_) => PayloadType::RespDiagPowerMode,
        Payload::Diagnostic(_) => PayloadType::Diagnostic,
        Payload::RespDiagPositive(_) => PayloadType::RespDiagPositive,
        Payload::RespDiagNegative(_) => PayloadType::RespDiagNegative,
    }
}

/// The header of a DoIP frame: the version byte, its complement, and the
/// payload type code in big-endian order.
pub open spec fn frame_header(frame: Seq<u8>, version: Version, t: PayloadType) -> bool {
    &&& frame.len() >= 8
    &&& frame[0] == version_byte(version)
    &&& frame[1] == !version_byte(version)
    &&& frame[2] as int * 256 + frame[3] as int == payload_type_code(t) as int
}

/// One lower-case hexadecimal digit for a value below 16.
pub open spec fn hex_digit(n: u8) -> char {
    if n < 10 {
        (48 + n) as char
    } else {
        (87 + n) as char
    }
}

/// Lower-case hexadecimal text of a byte string, two digits per byte, most
/// significant digit first.
pub open spec fn hex_lower(data: Seq<u8>) -> Seq<char>
    decreases data.len(),
{
    if data.len() == 0 {
        seq![]
    } else {
        seq![hex_digit(data[0] / 16), hex_digit(data[0] % 16)] + hex_lower(data.drop_first())
    }
}

// ---------------------------------------------------------------------------
// Functions of the ISO 13400-2 crate.
// ---------------------------------------------------------------------------

/// The frame that `From<Message> for Vec<u8>` gives for a request in a
/// version.
pub uninterp spec fn request_frame(version: Version, request: RequestView) -> Seq<u8>;

/// What `TryFrom<&[u8]> for Message` decodes a frame to, read as a reply, or
/// the error with which it refuses the frame.
pub uninterp spec fn decoded_reply(frame: Seq<u8>) -> Result<ReceivedView, Iso13400Error>;

/// What `VehicleIDWithVIN::new` gives for a VIN.
pub uninterp spec fn vin_request_of(vin: Seq<char>) -> Result<request::VehicleIDWithVIN, Iso13400Error>;

/// `LENGTH_OF_VIN`: a vehicle identification number has 17 bytes.
#[verifier::external_body]
pub(crate) fn length_of_vin() -> (n: usize)
    ensures
        n == 17,
{
    iso13400_2::LENGTH_OF_VIN
}

/// `Payload::payload_type` names the variant's payload type, one for one.
pub assume_specification[ iso13400_2::Payload::payload_type ](p: &Payload) -> (t: PayloadType)
    ensures
        t == payload_type_of(*p),
;

/// `VehicleIDWithVIN::new` accepts exactly a VIN of 17 bytes; its outcome is
/// named.
pub assume_specification[ request::VehicleIDWithVIN::new ](vin: &str) -> (r: Result<
    request::VehicleIDWithVIN,
    Iso13400Error,
>)
    ensures
        r == vin_request_of(vin@),
        r is Ok <==> vstd::utf8::encode_utf8(vin@).len() == 17,
;

/// `Clone` of `LogicAddress`, which derives `Copy` and `Clone`: a copy.
pub assume_specification[ <LogicAddress as Clone>::clone ](a: &LogicAddress) -> (c: LogicAddress)
    ensures
        c == *a,
;

/// `Clone` of the identifier type of EIDs and GIDs, which derives `Copy` and
/// `Clone`: a copy.
pub assume_specification[ <Eid as Clone>::clone ](a: &Eid) -> (c: Eid)
    ensures
        c == *a,
;

/// `Clone` of `Version`, which derives `Copy` and `Clone`: a copy.
pub assume_specification[ <Version as Clone>::clone ](a: &Version) -> (c: Version)
    ensures
        c == *a,
;

/// `Clone` of `FurtherAction`, which derives `Copy` and `Clone`: a copy.
pub assume_specification[ <FurtherAction as Clone>::clone ](a: &FurtherAction) -> (c: FurtherAction)
    ensures
        c == *a,
;

/// `Clone` of `SyncStatus`, which derives `Copy` and `Clone`: a copy.
pub assume_specification[ <SyncStatus as Clone>::clone ](a: &SyncStatus) -> (c: SyncStatus)
    ensures
        c == *a,
;

/// `From<PayloadType> for u16`: the code of a payload type (Table 17).
#[verifier::external_body]
pub(crate) fn payload_type_code_of(t: PayloadType) -> (code: u16)
    ensures
        code == payload_type_code(t),
{
    u16::from(t)
}

/// `From<Message> for Vec<u8>`: the frame of a request, its message built by
/// the crate's constructors (`VehicleIDWithEID::new` of the EID that
/// `Id::try_from` reads from the 6 bytes, `VehicleIDWithVIN::new`,
/// `RoutingActive::new`, `Diagnostic::new`, whose first address is written
/// first). The frame is named; its header is stated.
#[verifier::external_body]
pub(crate) fn encode_request(version: Version, req: Request) -> (frame: Vec<u8>)
    requires
        request_frameable(req@),
    ensures
        frame@ == request_frame(version, req@),
        frame_header(frame@, version, request_type(req@)),
{
    let payload = match req {
        Request::VehicleId => Payload::ReqVehicleId(request::VehicleID),
        Request::VehicleWithEid(eid) => Payload::ReqVehicleWithEid(request::VehicleIDWithEID::new(Eid::try_from(&eid[..]).unwrap())),
        Request::VehicleWithVin(vin) => Payload::ReqVehicleWithVIN(request::VehicleIDWithVIN::new(&vin).unwrap()),
        Request::EntityStatus => Payload::ReqEntityStatus(request::EntityStatus),
        Request::DiagPowerMode => Payload::ReqDiagPowerMode(request::DiagnosticPowerMode),
        Request::RoutingActive(src, t, user_def) => Payload::ReqRoutingActive(request::RoutingActive::new(src, t, user_def)),
        Request::AliveCheck => Payload::ReqAliveCheck(request::AliveCheck),
        Request::Diagnostic(src, dst, data) => Payload::Diagnostic(Diagnostic::new(src, dst, data)),
    };
    Message { version, payload }.into()
}

/// `TryFrom<&[u8]> for Message`: decodes a frame, and reads of its payload
/// what the client uses (the getters `code`, `address`, `eid`, `gid`,
/// `further_act`, `sync_status`, `active_code`, `mode`, `pre_diag_data`, the
/// field `data`, and `From<Id> for Vec<u8>`). The outcome is named; too short
/// a frame is refused, and an accepted one has the version and payload type
/// that its header names.
#[verifier::external_body]
pub(crate) fn decode_reply(data: &[u8]) -> (r: Result<Received, Iso13400Error>)
    ensures
        decoded_reply(data@) == decode_outcome_view(r),
        r matches Ok(x) ==> frame_header(data@, x.version, payload_type_of(x.payload)),
        r matches Ok(x) ==> data_matches_type(x@.data, x@.payload_type),
        data@.len() < 8 ==> r is Err,
{
    let m = Message::try_from(data)?;
    let data = match &m.payload {
        Payload::RespHeaderNegative(v) => ReplyData::HeaderNegative(v.code()),
        Payload::RespVehicleId(v) => ReplyData::VehicleId(v.address(), v.eid().into(), v.gid().into(), v.further_act(), v.sync_status()),
        Payload::RespRoutingActive(v) => ReplyData::RoutingActive(v.active_code()),
        Payload::RespDiagPowerMode(v) => ReplyData::PowerMode(v.mode()),
        Payload::Diagnostic(v) => ReplyData::Diagnostic(v.data.clone()),
        Payload::RespDiagNegative(v) => ReplyData::DiagNegative(v.code(), v.pre_diag_data().clone()),
        _ => ReplyData::Other,
    };
    Ok(Received { version: m.version, payload: m.payload, data })
}

/// `format!` with the `Debug` text of a payload type, for a refused request.
/// The text itself is not stated.
#[verifier::external_body]
pub(crate) fn refused_request_text(t: PayloadType) -> String {
    format!("invalid udp request payload: {:?}", t)
}

// ---------------------------------------------------------------------------
// Functions of the ISO 14229-1 and hex crates.
// ---------------------------------------------------------------------------

/// What `TryFrom<(Vec<u8>, &Configuration)> for Response`, with the default
/// configuration, decodes from these bytes: a UDS response or an error.
pub uninterp spec fn uds_decoded(data: Seq<u8>) -> Result<
    iso14229_1::response::Response,
    iso14229_1::Iso14229Error,
>;

/// `TryFrom<(Vec<u8>, &Configuration)> for Response`, with the decoder
/// configuration that `Configuration::default` gives (no data identifiers
/// configured): decodes a UDS response. The outcome is named, and an empty
/// message is refused.
#[verifier::external_body]
pub(crate) fn uds_response(data: Vec<u8>) -> (r: Result<
    iso14229_1::response::Response,
    iso14229_1::Iso14229Error,
>)
    ensures
        r == uds_decoded(data@),
        data@.len() == 0 ==> r is Err,
{
    let cfg = iso14229_1::Configuration::default();
    iso14229_1::response::Response::try_from((data, &cfg))
}

/// `hex::encode`: lower-case hexadecimal text, two digits per byte.
#[verifier::external_body]
pub(crate) fn hex_encode(data: &[u8]) -> (text: String)
    ensures
        text@ == hex_lower(data@),
{
    hex::encode(data)
}

} // verus!
