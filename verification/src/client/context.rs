//! What the client learns of the gateway, and which replies each request
//! expects.
use vstd::prelude::*;
use iso13400_2::{FurtherAction, LogicAddress, PayloadType, SyncStatus, Version};

verus! {

/// What a vehicle identification response told the client about the gateway.
#[derive(Debug)]
pub struct GatewayInfo {
    version: Version,
    address: LogicAddress,
    eid: Vec<u8>,
    gid: Vec<u8>,
    further_act: FurtherAction,
    sync_status: Option<SyncStatus>,
}

/// What a vehicle identification response told of the gateway, as a
/// mathematical value.
pub struct GatewayInfoView {
    pub version: Version,
    pub address: LogicAddress,
    pub eid: Seq<u8>,
    pub gid: Seq<u8>,
    pub further_act: FurtherAction,
    pub sync_status: Option<SyncStatus>,
}

impl View for GatewayInfo {
    type V = GatewayInfoView;

    closed spec fn view(&self) -> GatewayInfoView {
        GatewayInfoView {
            version: self.version,
            address: self.address,
            eid: self.eid@,
            gid: self.gid@,
            further_act: self.further_act,
            sync_status: self.sync_status,
        }
    }
}

impl GatewayInfo {
    /// What an identification response in `version` announced.
    pub(crate) fn new(
        version: Version,
        address: LogicAddress,
        eid: Vec<u8>,
        gid: Vec<u8>,
        further_act: FurtherAction,
        sync_status: Option<SyncStatus>,
    ) -> (info: Self)
        ensures
            info@ == (GatewayInfoView {
                version,
                address,
                eid: eid@,
                gid: gid@,
                further_act,
                sync_status,
            }),
    {
        GatewayInfo { version, address, eid, gid, further_act, sync_status }
    }

    /// The protocol version that the gateway answered with.
    pub fn version(&self) -> (version: Version)
        ensures
            version == self@.version,
    {
        self.version
    }

    /// The gateway's logical address.
    pub fn address(&self) -> (address: LogicAddress)
        ensures
            address == self@.address,
    {
        self.address
    }

    /// The gateway's entity identifier (6 bytes).
    pub fn eid(&self) -> (eid: &[u8])
        ensures
            eid@ == self@.eid,
    {
        self.eid.as_slice()
    }

    /// The gateway's group identifier (6 bytes).
    pub fn gid(&self) -> (gid: &[u8])
        ensures
            gid@ == self@.gid,
    {
        self.gid.as_slice()
    }

    /// The further action that the gateway asks for.
    pub fn further_act(&self) -> (further_act: FurtherAction)
        ensures
            further_act == self@.further_act,
    {
        self.further_act
    }

    /// The VIN/GID synchronisation status, where the gateway sent one.
    pub fn sync_status(&self) -> (sync_status: Option<SyncStatus>)
        ensures
            sync_status == self@.sync_status,
    {
        self.sync_status
    }
}

/// Replies to a vehicle identification request (with or without EID/VIN).
pub open spec fn vehicle_id_replies() -> Seq<PayloadType> {
    seq![PayloadType::RespHeaderNegative, PayloadType::RespVehicleId]
}

/// Replies to an entity status request.
pub open spec fn entity_status_replies() -> Seq<PayloadType> {
    seq![PayloadType::RespHeaderNegative, PayloadType::RespEntityStatus]
}

/// Replies to a diagnostic power mode request.
pub open spec fn power_mode_replies() -> Seq<PayloadType> {
    seq![PayloadType::RespHeaderNegative, PayloadType::RespDiagPowerMode]
}

/// Replies to a routing activation request.
pub open spec fn routing_active_replies() -> Seq<PayloadType> {
    seq![PayloadType::RespHeaderNegative, PayloadType::RespRoutingActive]
}

/// Replies to an alive check request.
pub open spec fn alive_check_replies() -> Seq<PayloadType> {
    seq![PayloadType::RespHeaderNegative, PayloadType::RespAliveCheck]
}

/// First replies to a diagnostic message: its acknowledge.
pub open spec fn diagnostic_ack_replies() -> Seq<PayloadType> {
    seq![PayloadType::RespHeaderNegative, PayloadType::RespDiagPositive, PayloadType::RespDiagNegative]
}

/// The reply that follows a positive acknowledge: the diagnostic response.
pub open spec fn diagnostic_data_replies() -> Seq<PayloadType> {
    seq![PayloadType::Diagnostic]
}

/// The replies a vehicle identification request expects.
pub fn vid_payload_types() -> (types: Vec<PayloadType>)
    ensures
        types@ == vehicle_id_replies(),
{
    vec![PayloadType::RespHeaderNegative, PayloadType::RespVehicleId]
}

/// The replies an entity status request expects.
pub fn es_payload_types() -> (types: Vec<PayloadType>)
    ensures
        types@ == entity_status_replies(),
{
    vec![PayloadType::RespHeaderNegative, PayloadType::RespEntityStatus]
}

/// The replies a diagnostic power mode request expects.
pub fn dpm_payload_types() -> (types: Vec<PayloadType>)
    ensures
        types@ == power_mode_replies(),
{
    vec![PayloadType::RespHeaderNegative, PayloadType::RespDiagPowerMode]
}

/// The replies a routing activation request expects.
pub fn ra_payload_types() -> (types: Vec<PayloadType>)
    ensures
        types@ == routing_active_replies(),
{
    vec![PayloadType::RespHeaderNegative, PayloadType::RespRoutingActive]
}

/// The replies an alive check request expects.
pub fn ac_payload_types() -> (types: Vec<PayloadType>)
    ensures
        types@ == alive_check_replies(),
{
    vec![PayloadType::RespHeaderNegative, PayloadType::RespAliveCheck]
}

/// The first replies a diagnostic message expects.
pub fn diag_payload_types() -> (types: Vec<PayloadType>)
    ensures
        types@ == diagnostic_ack_replies(),
{
    vec![PayloadType::RespHeaderNegative, PayloadType::RespDiagPositive, PayloadType::RespDiagNegative]
}

/// The reply a positively acknowledged diagnostic message expects next.
pub fn diag_data_payload_types() -> (types: Vec<PayloadType>)
    ensures
        types@ == diagnostic_data_replies(),
{
    vec![PayloadType::Diagnostic]
}

} // verus!
