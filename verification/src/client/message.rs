//! The client's requests and the replies it reads, as plain values: what the
//! library decides on, and what the frames it sends and receives carry.
use vstd::prelude::*;
use iso13400_2::{
    ActiveCode, DiagnosticNegativeCode, FurtherAction, HeaderNegativeCode, LogicAddress, Payload,
    PayloadType, PowerMode, RoutingActiveType, SyncStatus, Version,
};
use crate::iso::payload_type_of;

verus! {

/// A request of the client.
#[derive(Debug)]
pub enum Request {
    /// Vehicle identification.
    VehicleId,
    /// Vehicle identification of the entity with this EID (6 bytes).
    VehicleWithEid([u8; 6]),
    /// Vehicle identification of the vehicle with this VIN (17 bytes).
    VehicleWithVin(String),
    /// Entity status.
    EntityStatus,
    /// Diagnostic power mode.
    DiagPowerMode,
    /// Routing activation from a source address, of an activation type, with
    /// optional OEM-specific data.
    RoutingActive(LogicAddress, RoutingActiveType, Option<u32>),
    /// Alive check.
    AliveCheck,
    /// Diagnostic message from a source to a target address with UDS data.
    Diagnostic(LogicAddress, LogicAddress, Vec<u8>),
}

/// A request as a mathematical value.
pub enum RequestView {
    VehicleId,
    VehicleWithEid(Seq<u8>),
    VehicleWithVin(Seq<char>),
    EntityStatus,
    DiagPowerMode,
    RoutingActive(LogicAddress, RoutingActiveType, Option<u32>),
    AliveCheck,
    Diagnostic(LogicAddress, LogicAddress, Seq<u8>),
}

impl View for Request {
    type V = RequestView;

    open spec fn view(&self) -> RequestView {
        match self {
            Request::VehicleId => RequestView::VehicleId,
            Request::VehicleWithEid(eid) => RequestView::VehicleWithEid(eid@),
            Request::VehicleWithVin(vin) => RequestView::VehicleWithVin(vin@),
            Request::EntityStatus => RequestView::EntityStatus,
            Request::DiagPowerMode => RequestView::DiagPowerMode,
            Request::RoutingActive(src, t, user_def) => RequestView::RoutingActive(*src, *t, *user_def),
            Request::AliveCheck => RequestView::AliveCheck,
            Request::Diagnostic(src, dst, data) => RequestView::Diagnostic(*src, *dst, data@),
        }
    }
}

/// The payload type of the frame that carries a request.
pub open spec fn request_type(r: RequestView) -> PayloadType {
    match r {
        RequestView::VehicleId => PayloadType::ReqVehicleId,
        RequestView::VehicleWithEid(_) => PayloadType::ReqVehicleWithEid,
        RequestView::VehicleWithVin(_) => PayloadType::ReqVehicleWithVIN,
        RequestView::EntityStatus => PayloadType::ReqEntityStatus,
        RequestView::DiagPowerMode => PayloadType::ReqDiagPowerMode,
        RequestView::RoutingActive(..) => PayloadType::ReqRoutingActive,
        RequestView::AliveCheck => PayloadType::ReqAliveCheck,
        RequestView::Diagnostic(..) => PayloadType::Diagnostic,
    }
}

/// A request can be framed: a VIN has 17 bytes in UTF-8.
pub open spec fn request_frameable(r: RequestView) -> bool {
    r matches RequestView::VehicleWithVin(vin) ==> vstd::utf8::encode_utf8(vin).len() == 17
}

/// What the client reads of a reply's payload.
#[derive(Debug)]
pub enum ReplyData {
    /// A header negative acknowledge: its NACK code.
    HeaderNegative(HeaderNegativeCode),
    /// A vehicle identification response: the gateway's logical address,
    /// EID and GID (6 bytes each), further action and sync status.
    VehicleId(LogicAddress, Vec<u8>, Vec<u8>, FurtherAction, Option<SyncStatus>),
    /// A routing activation response: its response code.
    RoutingActive(ActiveCode),
    /// A diagnostic power mode response: the mode.
    PowerMode(PowerMode),
    /// A diagnostic message: its UDS user data.
    Diagnostic(Vec<u8>),
    /// A diagnostic negative acknowledge: its code and the echoed data.
    DiagNegative(DiagnosticNegativeCode, Vec<u8>),
    /// A payload of which the client reads nothing but its type.
    Other,
}

/// What the client reads of a reply's payload, as a mathematical value.
pub enum ReplyDataView {
    HeaderNegative(HeaderNegativeCode),
    VehicleId(LogicAddress, Seq<u8>, Seq<u8>, FurtherAction, Option<SyncStatus>),
    RoutingActive(ActiveCode),
    PowerMode(PowerMode),
    Diagnostic(Seq<u8>),
    DiagNegative(DiagnosticNegativeCode, Seq<u8>),
    Other,
}

impl View for ReplyData {
    type V = ReplyDataView;

    open spec fn view(&self) -> ReplyDataView {
        match self {
            ReplyData::HeaderNegative(c) => ReplyDataView::HeaderNegative(*c),
            ReplyData::VehicleId(a, e, g, f, s) => ReplyDataView::VehicleId(*a, e@, g@, *f, *s),
            ReplyData::RoutingActive(c) => ReplyDataView::RoutingActive(*c),
            ReplyData::PowerMode(m) => ReplyDataView::PowerMode(*m),
            ReplyData::Diagnostic(d) => ReplyDataView::Diagnostic(d@),
            ReplyData::DiagNegative(c, d) => ReplyDataView::DiagNegative(*c, d@),
            ReplyData::Other => ReplyDataView::Other,
        }
    }
}

/// A decoded reply: its version, the payload as decoded, and what the client
/// reads of that payload.
#[derive(Debug)]
pub struct Received {
    pub version: Version,
    pub payload: Payload,
    pub data: ReplyData,
}

/// A decoded reply as a mathematical value: version, payload, payload type,
/// and what the client reads of the payload.
pub struct ReceivedView {
    pub version: Version,
    pub payload: Payload,
    pub payload_type: PayloadType,
    pub data: ReplyDataView,
}

impl View for Received {
    type V = ReceivedView;

    open spec fn view(&self) -> ReceivedView {
        ReceivedView {
            version: self.version,
            payload: self.payload,
            payload_type: payload_type_of(self.payload),
            data: self.data@,
        }
    }
}

/// A decoding outcome with the reply taken by its view.
pub open spec fn decode_outcome_view(
    r: Result<Received, iso13400_2::Iso13400Error>,
) -> Result<ReceivedView, iso13400_2::Iso13400Error> {
    match r {
        Ok(x) => Ok(x@),
        Err(e) => Err(e),
    }
}

/// What is read of a payload matches its type: the payloads whose content
/// the client reads give that content, the others give nothing.
pub open spec fn data_matches_type(data: ReplyDataView, t: PayloadType) -> bool {
    match data {
        ReplyDataView::HeaderNegative(_) => t is RespHeaderNegative,
        ReplyDataView::VehicleId(..) => t is RespVehicleId,
        ReplyDataView::RoutingActive(_) => t is RespRoutingActive,
        ReplyDataView::PowerMode(_) => t is RespDiagPowerMode,
        ReplyDataView::Diagnostic(_) => t is Diagnostic,
        ReplyDataView::DiagNegative(..) => t is RespDiagNegative,
        ReplyDataView::Other => !(t is RespHeaderNegative || t is RespVehicleId
            || t is RespRoutingActive || t is RespDiagPowerMode || t is Diagnostic
            || t is RespDiagNegative),
    }
}

} // verus!
