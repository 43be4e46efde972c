//! Protocol session layer for a browser's remote debugging endpoint.
//!
//! The library keeps one multiplexed conversation with the far end: it frames
//! outbound commands, classifies inbound frames, correlates responses with the
//! commands that asked for them, fans out unsolicited events, and lets a stable
//! holder rebind to a fresh session after the transport dies.

pub mod browser;
pub mod codec;
pub mod commands;
pub mod config;
pub mod params;
pub mod table;
pub mod text;
pub mod session;
pub mod holder;
pub mod retry;
pub mod sequence;

pub mod error;

pub use error::{BrowserError, CdpError, CdpErrorData, ConfigError};
