//! The errors of the DoIP client.
use vstd::prelude::*;
use iso13400_2::{ActiveCode, DiagnosticNegativeCode, HeaderNegativeCode, Payload, PayloadType, Version};

verus! {

/// What went wrong in an exchange with a DoIP gateway.
#[derive(Debug)]
pub enum DoIpError {
    /// A socket operation failed.
    IoError(std::io::Error),
    /// The TLS layer failed.
    TlsError(String),
    /// The request cannot travel on the transport it was handed to.
    InputError(String),
    /// A frame could not be built or decoded.
    Iso13400Error(iso13400_2::Iso13400Error),
    /// The user data of a diagnostic response could not be decoded.
    Iso14229Error(iso14229_1::Iso14229Error),
    /// The reply has a payload type that the request does not expect.
    PayloadTypeError(PayloadType),
    /// The reply is a payload that the request does not answer with.
    UnexpectedResponse { version: Version, payload: Payload },
    /// The gateway refused the frame's header.
    HeaderNegativeError(HeaderNegativeCode),
    /// The gateway refused the routing activation.
    ActiveError(ActiveCode),
    /// The gateway refused a diagnostic message; `data` is the hexadecimal
    /// text of the diagnostic data it echoed.
    DiagnosticNegativeError { code: DiagnosticNegativeCode, data: String },
}

/// The header NACK codes after which the gateway closes the TCP socket
/// (Table 19 of ISO 13400-2), so the client shuts its side down too.
pub open spec fn header_negative_closes(code: HeaderNegativeCode) -> bool {
    code is IncorrectPatternFormat || code is InvalidPayloadLength
}

/// Whether an error asks the client to shut its TCP connection down.
pub open spec fn error_closes_connection(e: DoIpError) -> bool {
    e matches DoIpError::HeaderNegativeError(code) && header_negative_closes(code)
}

/// Decides whether the client shuts its TCP connection down on a header
/// negative acknowledge with `code`.
pub fn header_negative_requires_shutdown(code: HeaderNegativeCode) -> (close: bool)
    ensures
        close == header_negative_closes(code),
{
    match code {
        HeaderNegativeCode::IncorrectPatternFormat | HeaderNegativeCode::InvalidPayloadLength => true,
        _ => false,
    }
}

impl DoIpError {
    /// Whether this error asks the client to shut its TCP connection down:
    /// exactly a header negative acknowledge whose code closes the socket.
    pub fn closes_connection(&self) -> (close: bool)
        ensures
            close == error_closes_connection(*self),
    {
        match self {
            DoIpError::HeaderNegativeError(code) => header_negative_requires_shutdown(*code),
            _ => false,
        }
    }
}

} // verus!
