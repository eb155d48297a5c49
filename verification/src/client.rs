//! The client side: its configuration, what it learns of the gateway, and the
//! decisions it takes around each exchange.
pub mod config;
pub mod context;
pub mod session;
pub mod laws;
pub mod message;
