//! Properties that hold across the client's decisions.
use vstd::prelude::*;
use iso13400_2::{ActiveCode, HeaderNegativeCode, PayloadType, Version};
use crate::client::context::{
    alive_check_replies, diagnostic_ack_replies, diagnostic_data_replies, entity_status_replies,
    power_mode_replies, routing_active_replies, vehicle_id_replies,
};
use crate::client::context::GatewayInfoView;
use crate::client::session::{
    activation_outcome, gateway_after_reply, gateway_version_of, tcp_replies, udp_replies,
    ClientSession,
};
use crate::error::{error_closes_connection, header_negative_closes, DoIpError};
use crate::client::message::{data_matches_type, request_type, ReceivedView, ReplyDataView, RequestView};
use crate::iso::{frame_header, hex_digit, hex_lower, payload_type_code, version_byte};

verus! {

/// No request travels on both transports: a payload type that UDP carries
/// is refused on TCP, and the other way round.
pub proof fn law_transports_are_disjoint(t: PayloadType)
    ensures
        udp_replies(t) is Some ==> tcp_replies(t) is None,
        tcp_replies(t) is Some ==> udp_replies(t) is None,
{
}

/// Every request the client builds has a transport: vehicle identification
/// (plain, with EID, with VIN), entity status and power mode requests go over
/// UDP; routing activation, alive check and diagnostic messages over TCP.
pub proof fn law_every_request_has_a_transport(t: PayloadType)
    ensures
        (t is ReqVehicleId || t is ReqVehicleWithEid || t is ReqVehicleWithVIN || t is ReqEntityStatus
            || t is ReqDiagPowerMode) ==> udp_replies(t) is Some,
        (t is ReqRoutingActive || t is ReqAliveCheck || t is Diagnostic) ==> tcp_replies(t) is Some,
{
}

/// A reply that passes the payload type check for a request is one that the
/// request's handler answers: whatever the decoder reads of it matches its
/// type, so none of the handlers reports an accepted reply as unexpected.
pub proof fn law_accepted_replies_are_handled(d: ReceivedView)
    requires
        data_matches_type(d.data, d.payload_type),
    ensures
        vehicle_id_replies().contains(d.payload_type) ==> (d.data is HeaderNegative
            || d.data is VehicleId),
        entity_status_replies().contains(d.payload_type) ==> (d.data is HeaderNegative
            || d.payload_type is RespEntityStatus),
        power_mode_replies().contains(d.payload_type) ==> (d.data is HeaderNegative
            || d.data is PowerMode),
        routing_active_replies().contains(d.payload_type) ==> (d.data is HeaderNegative
            || d.data is RoutingActive),
        alive_check_replies().contains(d.payload_type) ==> (d.data is HeaderNegative
            || d.payload_type is RespAliveCheck),
        diagnostic_ack_replies().contains(d.payload_type) ==> (d.data is HeaderNegative
            || d.data is DiagNegative || d.payload_type is RespDiagPositive),
        diagnostic_data_replies().contains(d.payload_type) ==> d.data is Diagnostic,
{
}

/// A header negative acknowledge is read as its NACK code, and only such a
/// payload is: every handler answers it with the error that carries that
/// code, which shuts the connection exactly for an incorrect pattern or an
/// invalid payload length.
pub proof fn law_header_negative_reply(d: ReceivedView)
    requires
        data_matches_type(d.data, d.payload_type),
    ensures
        d.payload_type is RespHeaderNegative <==> d.data is HeaderNegative,
        d.data matches ReplyDataView::HeaderNegative(code) ==> (error_closes_connection(
            DoIpError::HeaderNegativeError(code),
        ) <==> (code is IncorrectPatternFormat || code is InvalidPayloadLength)),
{
}

/// Every request accepts a header negative acknowledge as its reply, except
/// the diagnostic response that follows a positive acknowledge.
pub proof fn law_header_negative_is_always_expected()
    ensures
        vehicle_id_replies().contains(PayloadType::RespHeaderNegative),
        entity_status_replies().contains(PayloadType::RespHeaderNegative),
        power_mode_replies().contains(PayloadType::RespHeaderNegative),
        routing_active_replies().contains(PayloadType::RespHeaderNegative),
        alive_check_replies().contains(PayloadType::RespHeaderNegative),
        diagnostic_ack_replies().contains(PayloadType::RespHeaderNegative),
{
    assert(vehicle_id_replies()[0] == PayloadType::RespHeaderNegative);
    assert(entity_status_replies()[0] == PayloadType::RespHeaderNegative);
    assert(power_mode_replies()[0] == PayloadType::RespHeaderNegative);
    assert(routing_active_replies()[0] == PayloadType::RespHeaderNegative);
    assert(alive_check_replies()[0] == PayloadType::RespHeaderNegative);
    assert(diagnostic_ack_replies()[0] == PayloadType::RespHeaderNegative);
}

/// A routing activation is refused exactly for the codes that refuse it
/// (unknown or invalid source address, invalid socket, missing
/// authentication, refused by the vehicle, unsupported type, TLS required);
/// an accepted one returns its own code, with the code's value exactly for
/// vehicle-manufacturer specific and reserved codes.
pub proof fn law_routing_activation(code: ActiveCode)
    ensures
        activation_outcome(code) is Err <==> (code is SourceAddressUnknown
            || code is SourceAddressInvalid || code is SocketInvalid || code is WithoutAuth
            || code is VehicleRefused || code is Unsupported || code is TLSRequired),
        activation_outcome(code) matches Err(e) ==> e == DoIpError::ActiveError(code),
        activation_outcome(code) matches Ok(status) ==> status.0 == code && (status.1 is Some <==> (
        code is VMSpecific || code is Reserved)),
        (code is Activated || code is Success || code is NeedConfirm) ==> activation_outcome(code)
            == Ok::<(ActiveCode, Option<u8>), DoIpError>((code, None)),
        code matches ActiveCode::VMSpecific(v) ==> activation_outcome(code) == Ok::<
            (ActiveCode, Option<u8>),
            DoIpError,
        >((code, Some(v))),
        code matches ActiveCode::Reserved(v) ==> activation_outcome(code) == Ok::<
            (ActiveCode, Option<u8>),
            DoIpError,
        >((code, Some(v))),
{
}

/// Each request expects, in this order, a header negative acknowledge and
/// then its own response: every vehicle identification request (plain, with
/// EID, with VIN) the vehicle identification response, an entity status
/// request the entity status response, a power mode request the power mode
/// response, a routing activation the routing activation response, an alive
/// check the alive check response, and a diagnostic message its positive or
/// negative acknowledge, after which the diagnostic response alone is
/// expected.
pub proof fn law_each_request_expects_its_own_response(t: PayloadType)
    ensures
        (t is ReqVehicleId || t is ReqVehicleWithEid || t is ReqVehicleWithVIN) ==> udp_replies(t)
            == Some(seq![PayloadType::RespHeaderNegative, PayloadType::RespVehicleId]),
        t is ReqEntityStatus ==> udp_replies(t) == Some(
            seq![PayloadType::RespHeaderNegative, PayloadType::RespEntityStatus],
        ),
        t is ReqDiagPowerMode ==> udp_replies(t) == Some(
            seq![PayloadType::RespHeaderNegative, PayloadType::RespDiagPowerMode],
        ),
        t is ReqRoutingActive ==> tcp_replies(t) == Some(
            seq![PayloadType::RespHeaderNegative, PayloadType::RespRoutingActive],
        ),
        t is ReqAliveCheck ==> tcp_replies(t) == Some(
            seq![PayloadType::RespHeaderNegative, PayloadType::RespAliveCheck],
        ),
        t is Diagnostic ==> tcp_replies(t) == Some(
            seq![
                PayloadType::RespHeaderNegative,
                PayloadType::RespDiagPositive,
                PayloadType::RespDiagNegative,
            ],
        ),
        diagnostic_data_replies() == seq![PayloadType::Diagnostic],
{
}

/// A decoded reply passes the payload type check of a request exactly when
/// it is a header negative acknowledge or the reply that the request's own
/// handler takes as success: the identification data for every vehicle
/// identification request, the entity status for an entity status request,
/// the power mode for a power mode request, the activation code for a
/// routing activation, the alive check response for an alive check, and an
/// acknowledge for a diagnostic message.
pub proof fn law_expected_replies_are_the_successful_ones(t: PayloadType, d: ReceivedView)
    requires
        data_matches_type(d.data, d.payload_type),
    ensures
        (t is ReqVehicleId || t is ReqVehicleWithEid || t is ReqVehicleWithVIN) ==> (udp_replies(t)
            is Some && (udp_replies(t)->Some_0.contains(d.payload_type) <==> (d.data is HeaderNegative
            || d.data is VehicleId))),
        t is ReqEntityStatus ==> (udp_replies(t) is Some && (udp_replies(t)->Some_0.contains(
            d.payload_type,
        ) <==> (d.data is HeaderNegative || d.payload_type is RespEntityStatus))),
        t is ReqDiagPowerMode ==> (udp_replies(t) is Some && (udp_replies(t)->Some_0.contains(
            d.payload_type,
        ) <==> (d.data is HeaderNegative || d.data is PowerMode))),
        t is ReqRoutingActive ==> (tcp_replies(t) is Some && (tcp_replies(t)->Some_0.contains(
            d.payload_type,
        ) <==> (d.data is HeaderNegative || d.data is RoutingActive))),
        t is ReqAliveCheck ==> (tcp_replies(t) is Some && (tcp_replies(t)->Some_0.contains(
            d.payload_type,
        ) <==> (d.data is HeaderNegative || d.payload_type is RespAliveCheck))),
        t is Diagnostic ==> (tcp_replies(t) is Some && (tcp_replies(t)->Some_0.contains(
            d.payload_type,
        ) <==> (d.data is HeaderNegative || d.data is DiagNegative
            || d.payload_type is RespDiagPositive))),
        diagnostic_data_replies().contains(d.payload_type) <==> d.data is Diagnostic,
{
    law_each_request_expects_its_own_response(t);
    let p = d.payload_type;
    let hn = PayloadType::RespHeaderNegative;
    lemma_pair_contains(hn, PayloadType::RespVehicleId, p);
    lemma_pair_contains(hn, PayloadType::RespEntityStatus, p);
    lemma_pair_contains(hn, PayloadType::RespDiagPowerMode, p);
    lemma_pair_contains(hn, PayloadType::RespRoutingActive, p);
    lemma_pair_contains(hn, PayloadType::RespAliveCheck, p);
    lemma_triple_contains(hn, PayloadType::RespDiagPositive, PayloadType::RespDiagNegative, p);
    assert(seq![PayloadType::Diagnostic].contains(p) <==> p is Diagnostic) by {
        if p is Diagnostic {
            assert(seq![PayloadType::Diagnostic][0] == p);
        }
    }
}

/// A two-element sequence holds exactly its two elements.
proof fn lemma_pair_contains(a: PayloadType, b: PayloadType, p: PayloadType)
    ensures
        seq![a, b].contains(p) <==> (p == a || p == b),
{
    if p == a {
        assert(seq![a, b][0] == p);
    } else if p == b {
        assert(seq![a, b][1] == p);
    }
}

/// A three-element sequence holds exactly its three elements.
proof fn lemma_triple_contains(a: PayloadType, b: PayloadType, c: PayloadType, p: PayloadType)
    ensures
        seq![a, b, c].contains(p) <==> (p == a || p == b || p == c),
{
    if p == a {
        assert(seq![a, b, c][0] == p);
    } else if p == b {
        assert(seq![a, b, c][1] == p);
    } else if p == c {
        assert(seq![a, b, c][2] == p);
    }
}

/// Taking in a vehicle identification response keeps what it announced: the
/// gateway's version is the response's, and its address, EID, GID, further
/// action and synchronisation status are the response's own. Any other
/// reply leaves what the client knew unchanged.
pub proof fn law_identification_records_the_gateway(
    info: Option<GatewayInfoView>,
    reply: ReceivedView,
)
    ensures
        reply.data matches ReplyDataView::VehicleId(address, eid, gid, further_act, sync_status)
            ==> gateway_after_reply(info, reply) matches Some(g) && g.version == reply.version
            && g.address == address && g.eid == eid && g.gid == gid && g.further_act == further_act
            && g.sync_status == sync_status,
        !(reply.data is VehicleId) ==> gateway_after_reply(info, reply) == info,
{
}

/// The client shuts its connection down after exactly two errors: a header
/// negative acknowledge with the code for an incorrect pattern or for an
/// invalid payload length.
pub proof fn law_shutdown_on_header_negative(e: DoIpError)
    ensures
        error_closes_connection(e) <==> (e == DoIpError::HeaderNegativeError(
            HeaderNegativeCode::IncorrectPatternFormat,
        ) || e == DoIpError::HeaderNegativeError(HeaderNegativeCode::InvalidPayloadLength)),
{
}

/// Until a vehicle identification response is accepted, requests carry the
/// default version, whose byte in a frame is 0xFF.
pub proof fn law_default_version_before_identification(s: ClientSession)
    requires
        s.gateway_info_view() is None,
    ensures
        s.gateway_version_view() == Version::Default,
        version_byte(s.gateway_version_view()) == 0xFF,
{
}

/// A frame built for a request starts with the version byte and its
/// complement, then the request's payload type code: the gateway's version
/// once an identification response was accepted, 0xFF before.
pub proof fn law_frames_carry_the_session_version(s: ClientSession, r: RequestView, frame: Seq<u8>)
    requires
        frame_header(frame, s.gateway_version_view(), request_type(r)),
    ensures
        frame[0] == version_byte(s.gateway_version_view()),
        frame[1] == !version_byte(s.gateway_version_view()),
        frame[2] as int * 256 + frame[3] as int == payload_type_code(request_type(r)) as int,
        s.gateway_info_view() is None ==> frame[0] == 0xFF,
{
}

/// What the client knows of the gateway after taking in a sequence of
/// replies to vehicle identification requests, one call after another.
pub open spec fn gateway_after_replies(
    info: Option<GatewayInfoView>,
    replies: Seq<ReceivedView>,
) -> Option<GatewayInfoView>
    decreases replies.len(),
{
    if replies.len() == 0 {
        info
    } else {
        gateway_after_reply(gateway_after_replies(info, replies.drop_last()), replies.last())
    }
}

/// The version of the last identification response among the replies, or
/// the default version where there is none.
pub open spec fn last_identification_version(replies: Seq<ReceivedView>) -> Version
    decreases replies.len(),
{
    if replies.len() == 0 {
        Version::Default
    } else if replies.last().data is VehicleId {
        replies.last().version
    } else {
        last_identification_version(replies.drop_last())
    }
}

/// Across any sequence of calls that take in replies to identification
/// requests, starting from a new session, requests carry the version of the
/// last accepted identification response, and the default version while
/// there has been none: a failed call never changes it.
pub proof fn law_gateway_version_follows_identification(replies: Seq<ReceivedView>)
    ensures
        gateway_version_of(gateway_after_replies(None, replies)) == last_identification_version(
            replies,
        ),
    decreases replies.len(),
{
    if replies.len() > 0 {
        law_gateway_version_follows_identification(replies.drop_last());
    }
}

/// Whether a character is a lower-case hexadecimal digit.
pub open spec fn is_lower_hex_digit(c: char) -> bool {
    ('0' <= c && c <= '9') || ('a' <= c && c <= 'f')
}

/// The hexadecimal text of echoed diagnostic data has two characters per
/// byte, each a lower-case hexadecimal digit.
pub proof fn law_hex_text(data: Seq<u8>)
    ensures
        hex_lower(data).len() == 2 * data.len(),
        forall|i: int| 0 <= i < hex_lower(data).len() ==> is_lower_hex_digit(#[trigger] hex_lower(data)[i]),
    decreases data.len(),
{
    if data.len() > 0 {
        let rest = data.drop_first();
        law_hex_text(rest);
        let hi = hex_digit(data[0] / 16);
        let lo = hex_digit(data[0] % 16);
        lemma_hex_digit(data[0] / 16);
        lemma_hex_digit(data[0] % 16);
        assert(hex_lower(data) == seq![hi, lo] + hex_lower(rest));
        assert forall|i: int| 0 <= i < hex_lower(data).len() implies is_lower_hex_digit(
            #[trigger] hex_lower(data)[i],
        ) by {
            if i >= 2 {
                assert(hex_lower(data)[i] == hex_lower(rest)[i - 2]);
            }
        }
    }
}

/// The value of a lower-case hexadecimal digit.
pub open spec fn hex_digit_value(c: char) -> int {
    if c <= '9' {
        c as int - '0' as int
    } else {
        c as int - 'a' as int + 10
    }
}

/// The hexadecimal text of echoed diagnostic data reads back as the data:
/// the two digits at `2 * i` and `2 * i + 1`, most significant first, give
/// the byte at `i`.
pub proof fn law_hex_text_reads_back(data: Seq<u8>)
    ensures
        hex_lower(data).len() == 2 * data.len(),
        forall|i: int|
            0 <= i < data.len() ==> 16 * hex_digit_value(#[trigger] hex_lower(data)[2 * i])
                + hex_digit_value(hex_lower(data)[2 * i + 1]) == data[i] as int,
    decreases data.len(),
{
    law_hex_text(data);
    if data.len() > 0 {
        let rest = data.drop_first();
        law_hex_text_reads_back(rest);
        lemma_hex_digit_value(data[0] / 16);
        lemma_hex_digit_value(data[0] % 16);
        let hi = hex_digit(data[0] / 16);
        let lo = hex_digit(data[0] % 16);
        assert(hex_lower(data) == seq![hi, lo] + hex_lower(rest));
        assert forall|i: int| 0 <= i < data.len() implies 16 * hex_digit_value(
            #[trigger] hex_lower(data)[2 * i],
        ) + hex_digit_value(hex_lower(data)[2 * i + 1]) == data[i] as int by {
            if i > 0 {
                assert(hex_lower(data)[2 * i] == hex_lower(rest)[2 * (i - 1)]);
                assert(hex_lower(data)[2 * i + 1] == hex_lower(rest)[2 * (i - 1) + 1]);
                assert(data[i] == rest[i - 1]);
            }
        }
    }
}

/// The digit of a value below 16 has that value.
proof fn lemma_hex_digit_value(n: u8)
    requires
        n < 16,
    ensures
        hex_digit_value(hex_digit(n)) == n as int,
{
}

/// A value below 16 has a lower-case hexadecimal digit.
proof fn lemma_hex_digit(n: u8)
    requires
        n < 16,
    ensures
        is_lower_hex_digit(hex_digit(n)),
{
}

} // verus!
