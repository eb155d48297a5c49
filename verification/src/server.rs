//! The gateway side: its configuration.
pub mod config;
