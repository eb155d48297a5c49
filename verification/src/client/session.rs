//! The decisions a DoIP client takes around each exchange with its gateway:
//! which request to build, on which transport it travels and which replies it
//! expects, whether a reply is accepted, and what an accepted reply means.
//! The sockets themselves belong to the caller.
use vstd::prelude::*;
use iso13400_2::{ActiveCode, LogicAddress, Payload, PayloadType, PowerMode, RoutingActiveType, Version};
use crate::client::config::Configuration;
use crate::client::context::{
    ac_payload_types, alive_check_replies, diag_data_payload_types, diag_payload_types,
    diagnostic_ack_replies, diagnostic_data_replies, dpm_payload_types, entity_status_replies,
    es_payload_types, power_mode_replies, ra_payload_types, routing_active_replies,
    vehicle_id_replies, vid_payload_types, GatewayInfo, GatewayInfoView,
};
use crate::client::message::{
    data_matches_type, request_frameable, request_type, Received, ReceivedView, ReplyData, ReplyDataView,
    Request, RequestView,
};
use crate::error::DoIpError;
use crate::iso::{
    decode_reply, decoded_reply, encode_request, frame_header, hex_encode, hex_lower,
    payload_type_code, payload_type_code_of, refused_request_text, request_frame, uds_decoded,
    uds_response, vin_request_of,
};

verus! {

/// The status of an accepted routing activation: the response code, and the
/// code's value where the code is vehicle-manufacturer specific or reserved.
pub type RoutingActiveStatus = (ActiveCode, Option<u8>);

/// A request ready to send: its frame, and the payload types of the replies
/// it accepts.
#[derive(Debug)]
pub struct Exchange {
    pub frame: Vec<u8>,
    pub expected: Vec<PayloadType>,
}

/// The replies that a request sent over UDP accepts; `None` for a payload
/// that does not travel over UDP.
pub open spec fn udp_replies(t: PayloadType) -> Option<Seq<PayloadType>> {
    match t {
        PayloadType::ReqVehicleId => Some(vehicle_id_replies()),
        PayloadType::ReqVehicleWithEid => Some(vehicle_id_replies()),
        PayloadType::ReqVehicleWithVIN => Some(vehicle_id_replies()),
        PayloadType::ReqEntityStatus => Some(entity_status_replies()),
        PayloadType::ReqDiagPowerMode => Some(power_mode_replies()),
        _ => None,
    }
}

/// The replies that a request sent over TCP accepts; `None` for a payload
/// that does not travel over TCP.
pub open spec fn tcp_replies(t: PayloadType) -> Option<Seq<PayloadType>> {
    match t {
        PayloadType::ReqRoutingActive => Some(routing_active_replies()),
        PayloadType::ReqAliveCheck => Some(alive_check_replies()),
        PayloadType::Diagnostic => Some(diagnostic_ack_replies()),
        _ => None,
    }
}

/// The version a request carries: the one the gateway answered its
/// identification with, or the default version before that.
pub open spec fn gateway_version_of(info: Option<GatewayInfoView>) -> Version {
    match info {
        Some(i) => i.version,
        None => Version::Default,
    }
}

/// What the client knows of the gateway after taking in a reply to a vehicle
/// identification request: what an identification response announced, in
/// its version; otherwise what it knew before.
pub open spec fn gateway_after_reply(
    info: Option<GatewayInfoView>,
    reply: ReceivedView,
) -> Option<GatewayInfoView> {
    match reply.data {
        ReplyDataView::VehicleId(address, eid, gid, further_act, sync_status) => Some(
            GatewayInfoView { version: reply.version, address, eid, gid, further_act, sync_status },
        ),
        _ => info,
    }
}

/// What a routing activation response code means: activated (with the
/// code's value for vehicle-manufacturer specific and reserved codes), or
/// refused.
pub open spec fn activation_outcome(code: ActiveCode) -> Result<RoutingActiveStatus, DoIpError> {
    match code {
        ActiveCode::Activated => Ok((code, None)),
        ActiveCode::Success => Ok((code, None)),
        ActiveCode::NeedConfirm => Ok((code, None)),
        ActiveCode::SourceAddressUnknown => Err(DoIpError::ActiveError(code)),
        ActiveCode::SourceAddressInvalid => Err(DoIpError::ActiveError(code)),
        ActiveCode::SocketInvalid => Err(DoIpError::ActiveError(code)),
        ActiveCode::WithoutAuth => Err(DoIpError::ActiveError(code)),
        ActiveCode::VehicleRefused => Err(DoIpError::ActiveError(code)),
        ActiveCode::Unsupported => Err(DoIpError::ActiveError(code)),
        ActiveCode::TLSRequired => Err(DoIpError::ActiveError(code)),
        ActiveCode::VMSpecific(v) => Ok((code, Some(v))),
        ActiveCode::Reserved(v) => Ok((code, Some(v))),
    }
}

/// The error for a reply that the request does not answer with.
pub open spec fn unexpected(reply: Received) -> DoIpError {
    DoIpError::UnexpectedResponse { version: reply.version, payload: reply.payload }
}

/// The same payload type has the same code, and only it.
proof fn lemma_payload_type_code_injective(a: PayloadType, b: PayloadType)
    ensures
        payload_type_code(a) == payload_type_code(b) <==> a == b,
{
}

/// Whether `t` is among `types`, compared by payload type code.
fn expects(types: &Vec<PayloadType>, t: PayloadType) -> (found: bool)
    ensures
        found == types@.contains(t),
{
    let code = payload_type_code_of(t);
    let mut i: usize = 0;
    while i < types.len()
        invariant
            i <= types.len(),
            code == payload_type_code(t),
            forall|j: int| 0 <= j < i ==> types@[j] != t,
        decreases types.len() - i,
    {
        let candidate = types[i];
        if payload_type_code_of(candidate) == code {
            proof {
                lemma_payload_type_code_injective(candidate, t);
                assert(types@[i as int] == t);
            }
            return true;
        }
        i = i + 1;
    }
    false
}

/// The state of a DoIP client between exchanges: its configuration, and what
/// the gateway's identification response told it.
#[derive(Debug)]
pub struct ClientSession {
    config: Configuration,
    gateway_info: Option<GatewayInfo>,
}

impl ClientSession {
    /// The configuration.
    pub closed spec fn config_view(&self) -> Configuration {
        self.config
    }

    /// What the last accepted identification response told of the gateway.
    pub closed spec fn gateway_info_view(&self) -> Option<GatewayInfoView> {
        match self.gateway_info {
            Some(info) => Some(info@),
            None => None,
        }
    }

    /// The version requests carry.
    pub open spec fn gateway_version_view(&self) -> Version {
        gateway_version_of(self.gateway_info_view())
    }

    /// The client's logical address.
    pub open spec fn address_view(&self) -> LogicAddress {
        self.config_view().address_view()
    }

    /// A session that knows nothing of the gateway yet.
    pub fn new(config: Configuration) -> (s: Self)
        ensures
            s.config_view() == config,
            s.gateway_info_view() is None,
    {
        ClientSession { config, gateway_info: None }
    }

    /// The configuration.
    pub fn config(&self) -> (config: &Configuration)
        ensures
            *config == self.config_view(),
    {
        &self.config
    }

    /// What the last accepted identification response told of the gateway.
    pub fn gateway_info(&self) -> (info: Option<&GatewayInfo>)
        ensures
            info is Some <==> self.gateway_info_view() is Some,
            info matches Some(i) ==> self.gateway_info_view() == Some(i@),
    {
        self.gateway_info.as_ref()
    }

    /// The version a request carries: the gateway's, once an identification
    /// response was accepted, and the default version before.
    pub fn gateway_version(&self) -> (version: Version)
        ensures
            version == self.gateway_version_view(),
    {
        match &self.gateway_info {
            Some(info) => info.version(),
            None => Version::Default,
        }
    }

    /// A vehicle identification request.
    pub fn vehicle_identifier_request(&self) -> (r: Request)
        ensures
            r@ == RequestView::VehicleId,
    {
        Request::VehicleId
    }

    /// A vehicle identification request for the entity with `eid`.
    pub fn vehicle_with_eid_request(&self, eid: [u8; 6]) -> (r: Request)
        ensures
            r@ == RequestView::VehicleWithEid(eid@),
    {
        Request::VehicleWithEid(eid)
    }

    /// A vehicle identification request for the vehicle with `vin`; refused
    /// (by the ISO 13400-2 crate) unless the VIN has 17 bytes.
    pub fn vehicle_with_vin_request(&self, vin: &str) -> (r: Result<Request, DoIpError>)
        ensures
            r is Ok <==> vstd::utf8::encode_utf8(vin@).len() == 17,
            r matches Ok(req) ==> req@ == RequestView::VehicleWithVin(vin@),
            vin_request_of(vin@) matches Err(e) ==> r == Err::<Request, DoIpError>(
                DoIpError::Iso13400Error(e),
            ),
    {
        match iso13400_2::request::VehicleIDWithVIN::new(vin) {
            Ok(_) => Ok(Request::VehicleWithVin(vin.to_owned())),
            Err(e) => Err(DoIpError::Iso13400Error(e)),
        }
    }

    /// A routing activation request from the client's own address.
    pub fn routing_active_request(&self, active_type: RoutingActiveType, user_def: Option<u32>) -> (r:
        Request)
        ensures
            r@ == RequestView::RoutingActive(self.address_view(), active_type, user_def),
    {
        Request::RoutingActive(self.config.address(), active_type, user_def)
    }

    /// An alive check request.
    pub fn alive_check_request(&self) -> (r: Request)
        ensures
            r@ == RequestView::AliveCheck,
    {
        Request::AliveCheck
    }

    /// An entity status request.
    pub fn entity_status_request(&self) -> (r: Request)
        ensures
            r@ == RequestView::EntityStatus,
    {
        Request::EntityStatus
    }

    /// A diagnostic power mode request.
    pub fn diag_power_mode_request(&self) -> (r: Request)
        ensures
            r@ == RequestView::DiagPowerMode,
    {
        Request::DiagPowerMode
    }

    /// A diagnostic message from the client's own address to the node at
    /// `address`, with the UDS request `data`.
    pub fn diagnostic_request(&self, address: LogicAddress, data: Vec<u8>) -> (r: Request)
        ensures
            r@ == RequestView::Diagnostic(self.address_view(), address, data@),
    {
        Request::Diagnostic(self.config.address(), address, data)
    }

    /// Prepares a request for UDP: refused unless it is a vehicle
    /// identification, entity status or power mode request; otherwise the
    /// frame of the request in the session's version, and the replies it
    /// accepts.
    pub fn udp_exchange(&self, request: Request) -> (r: Result<Exchange, DoIpError>)
        requires
            request_frameable(request@),
        ensures
            match udp_replies(request_type(request@)) {
                Some(replies) => r matches Ok(x) && x.expected@ == replies && x.frame@ == request_frame(
                    self.gateway_version_view(),
                    request@,
                ) && frame_header(x.frame@, self.gateway_version_view(), request_type(request@)),
                None => r matches Err(DoIpError::InputError(_)),
            },
    {
        let expected = match &request {
            Request::VehicleId | Request::VehicleWithEid(_) | Request::VehicleWithVin(_) => vid_payload_types(),
            Request::EntityStatus => es_payload_types(),
            Request::DiagPowerMode => dpm_payload_types(),
            Request::RoutingActive(..) => {
                return Err(DoIpError::InputError(refused_request_text(PayloadType::ReqRoutingActive)));
            },
            Request::AliveCheck => {
                return Err(DoIpError::InputError(refused_request_text(PayloadType::ReqAliveCheck)));
            },
            Request::Diagnostic(..) => {
                return Err(DoIpError::InputError(refused_request_text(PayloadType::Diagnostic)));
            },
        };
        let frame = encode_request(self.gateway_version(), request);
        Ok(Exchange { frame, expected })
    }

    /// Prepares a request for TCP: refused unless it is a routing activation,
    /// alive check or diagnostic message; otherwise the frame of the request
    /// in the session's version, and the replies it accepts.
    pub fn tcp_exchange(&self, request: Request) -> (r: Result<Exchange, DoIpError>)
        requires
            request_frameable(request@),
        ensures
            match tcp_replies(request_type(request@)) {
                Some(replies) => r matches Ok(x) && x.expected@ == replies && x.frame@ == request_frame(
                    self.gateway_version_view(),
                    request@,
                ) && frame_header(x.frame@, self.gateway_version_view(), request_type(request@)),
                None => r matches Err(DoIpError::InputError(_)),
            },
    {
        let expected = match &request {
            Request::RoutingActive(..) => ra_payload_types(),
            Request::AliveCheck => ac_payload_types(),
            Request::Diagnostic(..) => diag_payload_types(),
            Request::VehicleId => {
                return Err(DoIpError::InputError(refused_request_text(PayloadType::ReqVehicleId)));
            },
            Request::VehicleWithEid(_) => {
                return Err(DoIpError::InputError(refused_request_text(PayloadType::ReqVehicleWithEid)));
            },
            Request::VehicleWithVin(_) => {
                return Err(DoIpError::InputError(refused_request_text(PayloadType::ReqVehicleWithVIN)));
            },
            Request::EntityStatus => {
                return Err(DoIpError::InputError(refused_request_text(PayloadType::ReqEntityStatus)));
            },
            Request::DiagPowerMode => {
                return Err(DoIpError::InputError(refused_request_text(PayloadType::ReqDiagPowerMode)));
            },
        };
        let frame = encode_request(self.gateway_version(), request);
        Ok(Exchange { frame, expected })
    }

    /// Whether a frame went out whole: the count of written bytes is its
    /// length. A short write is an error of the connection.
    pub fn frame_fully_written(written: usize, frame_len: usize) -> (whole: bool)
        ensures
            whole == (written == frame_len),
    {
        written == frame_len
    }

    /// Decodes the bytes of a reply and accepts it exactly when the decoder
    /// accepts the frame and its payload type is expected: then the reply is
    /// what the frame decodes to. A refused frame gives the decoder's error;
    /// an unexpected payload type, that type.
    pub fn parse_response(data: &[u8], expected: &Vec<PayloadType>) -> (r: Result<Received, DoIpError>)
        ensures
            decoded_reply(data@) matches Err(e) ==> r == Err::<Received, DoIpError>(
                DoIpError::Iso13400Error(e),
            ),
            decoded_reply(data@) matches Ok(d) ==> if expected@.contains(d.payload_type) {
                r matches Ok(x) && x@ == d
            } else {
                r == Err::<Received, DoIpError>(DoIpError::PayloadTypeError(d.payload_type))
            },
            r matches Ok(x) ==> frame_header(data@, x.version, x@.payload_type) && data_matches_type(
                x@.data,
                x@.payload_type,
            ),
            data@.len() < 8 ==> r matches Err(DoIpError::Iso13400Error(_)),
    {
        match decode_reply(data) {
            Err(e) => Err(DoIpError::Iso13400Error(e)),
            Ok(reply) => {
                let actual = reply.payload.payload_type();
                if expects(expected, actual) {
                    Ok(reply)
                } else {
                    Err(DoIpError::PayloadTypeError(actual))
                }
            },
        }
    }

    /// What a routing activation response code means.
    pub fn activation_status(code: ActiveCode) -> (r: Result<RoutingActiveStatus, DoIpError>)
        ensures
            r == activation_outcome(code),
    {
        match code {
            ActiveCode::Activated | ActiveCode::Success | ActiveCode::NeedConfirm => Ok((code, None)),
            ActiveCode::SourceAddressUnknown
            | ActiveCode::SourceAddressInvalid
            | ActiveCode::SocketInvalid
            | ActiveCode::WithoutAuth
            | ActiveCode::VehicleRefused
            | ActiveCode::Unsupported
            | ActiveCode::TLSRequired => Err(DoIpError::ActiveError(code)),
            ActiveCode::VMSpecific(v) => Ok((code, Some(v))),
            ActiveCode::Reserved(v) => Ok((code, Some(v))),
        }
    }

    /// Takes in the reply to a vehicle identification request. An
    /// identification response is accepted, and the gateway's version and
    /// what it announced are kept; a header negative acknowledge is an error
    /// with its code, any other payload is unexpected, and both leave the
    /// session as it was.
    pub fn vehicle_id_response(&mut self, reply: Received) -> (r: Result<(), DoIpError>)
        requires
            data_matches_type(reply@.data, reply@.payload_type),
        ensures
            final(self).config_view() == old(self).config_view(),
            final(self).gateway_info_view() == gateway_after_reply(old(self).gateway_info_view(), reply@),
            match reply@.data {
                ReplyDataView::HeaderNegative(code) => r == Err::<(), DoIpError>(
                    DoIpError::HeaderNegativeError(code),
                ) && final(self).gateway_info_view() == old(self).gateway_info_view(),
                ReplyDataView::VehicleId(address, eid, gid, further_act, sync_status) => r is Ok
                    && final(self).gateway_info_view() == Some(
                    (GatewayInfoView {
                        version: reply.version,
                        address,
                        eid,
                        gid,
                        further_act,
                        sync_status,
                    }),
                ),
                _ => r == Err::<(), DoIpError>(unexpected(reply)) && final(self).gateway_info_view()
                    == old(self).gateway_info_view(),
            },
    {
        let Received { version, payload, data } = reply;
        match data {
            ReplyData::HeaderNegative(code) => Err(DoIpError::HeaderNegativeError(code)),
            ReplyData::VehicleId(address, eid, gid, further_act, sync_status) => {
                self.gateway_info = Some(
                    GatewayInfo::new(version, address, eid, gid, further_act, sync_status),
                );
                Ok(())
            },
            _ => Err(DoIpError::UnexpectedResponse { version, payload }),
        }
    }

    /// Takes in the reply to a routing activation request: what its response
    /// code means; a header negative acknowledge is an error with its code,
    /// any other payload is unexpected.
    pub fn routing_active_response(reply: Received) -> (r: Result<RoutingActiveStatus, DoIpError>)
        requires
            data_matches_type(reply@.data, reply@.payload_type),
        ensures
            match reply@.data {
                ReplyDataView::HeaderNegative(code) => r == Err::<RoutingActiveStatus, DoIpError>(
                    DoIpError::HeaderNegativeError(code),
                ),
                ReplyDataView::RoutingActive(code) => r == activation_outcome(code),
                _ => r == Err::<RoutingActiveStatus, DoIpError>(unexpected(reply)),
            },
    {
        let Received { version, payload, data } = reply;
        match data {
            ReplyData::HeaderNegative(code) => Err(DoIpError::HeaderNegativeError(code)),
            ReplyData::RoutingActive(code) => Self::activation_status(code),
            _ => Err(DoIpError::UnexpectedResponse { version, payload }),
        }
    }

    /// Takes in the reply to an alive check request.
    pub fn alive_check_response(reply: Received) -> (r: Result<(), DoIpError>)
        requires
            data_matches_type(reply@.data, reply@.payload_type),
        ensures
            match reply@.data {
                ReplyDataView::HeaderNegative(code) => r == Err::<(), DoIpError>(
                    DoIpError::HeaderNegativeError(code),
                ),
                _ => if reply.payload is RespAliveCheck {
                    r is Ok
                } else {
                    r == Err::<(), DoIpError>(unexpected(reply))
                },
            },
    {
        let Received { version, payload, data } = reply;
        match data {
            ReplyData::HeaderNegative(code) => Err(DoIpError::HeaderNegativeError(code)),
            _ => match payload {
                Payload::RespAliveCheck(_) => Ok(()),
                p => Err(DoIpError::UnexpectedResponse { version, payload: p }),
            },
        }
    }

    /// Takes in the reply to an entity status request: the status itself.
    pub fn entity_status_response(reply: Received) -> (r: Result<
        iso13400_2::response::EntityStatus,
        DoIpError,
    >)
        requires
            data_matches_type(reply@.data, reply@.payload_type),
        ensures
            match reply@.data {
                ReplyDataView::HeaderNegative(code) => r == Err::<
                    iso13400_2::response::EntityStatus,
                    DoIpError,
                >(DoIpError::HeaderNegativeError(code)),
                _ => match reply.payload {
                    Payload::RespEntityStatus(status) => r == Ok::<
                        iso13400_2::response::EntityStatus,
                        DoIpError,
                    >(status),
                    _ => r == Err::<iso13400_2::response::EntityStatus, DoIpError>(unexpected(reply)),
                },
            },
    {
        let Received { version, payload, data } = reply;
        match data {
            ReplyData::HeaderNegative(code) => Err(DoIpError::HeaderNegativeError(code)),
            _ => match payload {
                Payload::RespEntityStatus(v) => Ok(v),
                p => Err(DoIpError::UnexpectedResponse { version, payload: p }),
            },
        }
    }

    /// Takes in the reply to a diagnostic power mode request: the mode it
    /// reports.
    pub fn diag_power_mode_response(reply: Received) -> (r: Result<PowerMode, DoIpError>)
        requires
            data_matches_type(reply@.data, reply@.payload_type),
        ensures
            match reply@.data {
                ReplyDataView::HeaderNegative(code) => r == Err::<PowerMode, DoIpError>(
                    DoIpError::HeaderNegativeError(code),
                ),
                ReplyDataView::PowerMode(mode) => r == Ok::<PowerMode, DoIpError>(mode),
                _ => r == Err::<PowerMode, DoIpError>(unexpected(reply)),
            },
    {
        let Received { version, payload, data } = reply;
        match data {
            ReplyData::HeaderNegative(code) => Err(DoIpError::HeaderNegativeError(code)),
            ReplyData::PowerMode(mode) => Ok(mode),
            _ => Err(DoIpError::UnexpectedResponse { version, payload }),
        }
    }

    /// Takes in the acknowledge of a diagnostic message. A positive one means
    /// the diagnostic response follows: the result is the payload types that
    /// next reply may have. A negative one is an error that carries its code
    /// and the echoed data as lower-case hexadecimal text.
    pub fn diagnostic_ack_response(reply: Received) -> (r: Result<Vec<PayloadType>, DoIpError>)
        requires
            data_matches_type(reply@.data, reply@.payload_type),
        ensures
            match reply@.data {
                ReplyDataView::HeaderNegative(code) => r == Err::<Vec<PayloadType>, DoIpError>(
                    DoIpError::HeaderNegativeError(code),
                ),
                ReplyDataView::DiagNegative(code, echoed) => r matches Err(
                    DoIpError::DiagnosticNegativeError { code: c, data: text },
                ) && c == code && text@ == hex_lower(echoed),
                _ => if reply.payload is RespDiagPositive {
                    r matches Ok(next) && next@ == diagnostic_data_replies()
                } else {
                    r == Err::<Vec<PayloadType>, DoIpError>(unexpected(reply))
                },
            },
    {
        let Received { version, payload, data } = reply;
        match data {
            ReplyData::HeaderNegative(code) => Err(DoIpError::HeaderNegativeError(code)),
            ReplyData::DiagNegative(code, echoed) => {
                let text = hex_encode(echoed.as_slice());
                Err(DoIpError::DiagnosticNegativeError { code, data: text })
            },
            _ => match payload {
                Payload::RespDiagPositive(_) => Ok(diag_data_payload_types()),
                p => Err(DoIpError::UnexpectedResponse { version, payload: p }),
            },
        }
    }

    /// Takes in the diagnostic response that follows a positive acknowledge:
    /// its user data decoded as a UDS response (with the default decoder
    /// configuration), or the decoder's error.
    pub fn diagnostic_data_response(reply: Received) -> (r: Result<
        iso14229_1::response::Response,
        DoIpError,
    >)
        requires
            data_matches_type(reply@.data, reply@.payload_type),
        ensures
            match reply@.data {
                ReplyDataView::Diagnostic(user_data) => match uds_decoded(user_data) {
                    Ok(response) => r == Ok::<iso14229_1::response::Response, DoIpError>(response),
                    Err(e) => r == Err::<iso14229_1::response::Response, DoIpError>(
                        DoIpError::Iso14229Error(e),
                    ),
                },
                _ => r == Err::<iso14229_1::response::Response, DoIpError>(unexpected(reply)),
            },
    {
        let Received { version, payload, data } = reply;
        match data {
            ReplyData::Diagnostic(user_data) => match uds_response(user_data) {
                Ok(resp) => Ok(resp),
                Err(e) => Err(DoIpError::Iso14229Error(e)),
            },
            _ => Err(DoIpError::UnexpectedResponse { version, payload }),
        }
    }
}

} // verus!
