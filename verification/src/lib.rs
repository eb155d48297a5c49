//! A client for diagnostics over IP (ISO 13400-2): the decisions that a DoIP
//! client takes around each exchange with a gateway, proved against their
//! contracts. The sockets stay with the caller: the library builds each
//! request's frame, names the replies it accepts, checks a received frame
//! against them, and says what an accepted reply means.
pub mod client;
pub mod error;
pub mod iso;
pub mod server;

pub use client::config::Configuration;
pub use client::context::GatewayInfo;
pub use client::message::{Received, ReplyData, Request};
pub use client::session::{ClientSession, Exchange, RoutingActiveStatus};
pub use error::DoIpError;
