//! Error types surfaced by the session layer and its collaborators.

use vstd::prelude::*;
use vstd::string::*;

use crate::text::{append_signed_decimal, signed_decimal};

verus! {

/// An application-level error reported by the far end for one command.
#[derive(Clone, Debug)]
pub struct CdpErrorData {
    pub code: i64,
    pub message: String,
}

impl View for CdpErrorData {
    type V = (i64, Seq<char>);

    open spec fn view(&self) -> (i64, Seq<char>) {
        (self.code, self.message@)
    }
}

/// What a call on a session can fail with.
#[derive(Debug)]
pub enum CdpError {
    /// The initial connect failed; carries the transport's reason.
    ConnectionFailed(String),
    /// The writer side of the session is dead; nothing was sent.
    SendFailed,
    /// The far end executed the command and reported an error.
    ResponseError { code: i64, message: String },
    /// The pending slot was abandoned by teardown before a response came.
    ResponseDropped,
}

/// The text that describes a session error.
pub open spec fn cdp_error_text(e: CdpError) -> Seq<char> {
    match e {
        CdpError::ConnectionFailed(msg) => "CDP connection failed: "@ + msg@,
        CdpError::SendFailed => "Failed to send CDP command"@,
        CdpError::ResponseError { code, message } => "CDP error ("@ + signed_decimal(code as int)
            + "): "@ + message@,
        CdpError::ResponseDropped => "CDP response channel dropped"@,
    }
}

impl CdpError {
    /// Whether the error leaves the session unusable, so that a caller may
    /// reconnect and retry once.
    pub open spec fn spec_is_transport_failure(&self) -> bool {
        self is SendFailed || self is ResponseDropped
    }

    #[verifier::when_used_as_spec(spec_is_transport_failure)]
    pub fn is_transport_failure(&self) -> (r: bool)
        ensures
            r == self.spec_is_transport_failure(),
    {
        match self {
            CdpError::SendFailed | CdpError::ResponseDropped => true,
            _ => false,
        }
    }

    /// The far end's error for one command, as a session error.
    pub fn from_data(data: CdpErrorData) -> (r: CdpError)
        ensures
            r == (CdpError::ResponseError { code: data.code, message: data.message }),
    {
        CdpError::ResponseError { code: data.code, message: data.message }
    }

    /// A human-readable description of the error.
    pub fn describe(&self) -> (r: String)
        ensures
            r@ == cdp_error_text(*self),
    {
        match self {
            CdpError::ConnectionFailed(msg) => {
                let mut s = String::from_str("CDP connection failed: ");
                s.append(msg.as_str());
                s
            },
            CdpError::SendFailed => String::from_str("Failed to send CDP command"),
            CdpError::ResponseError { code, message } => {
                let mut s = String::from_str("CDP error (");
                append_signed_decimal(&mut s, *code);
                s.append("): ");
                s.append(message.as_str());
                s
            },
            CdpError::ResponseDropped => String::from_str("CDP response channel dropped"),
        }
    }
}

/// What launching or locating the browser can fail with.
#[derive(Debug)]
pub enum BrowserError {
    LaunchFailed(String),
    Timeout,
}

/// The text that describes a browser error.
pub open spec fn browser_error_text(e: BrowserError) -> Seq<char> {
    match e {
        BrowserError::LaunchFailed(msg) => "Failed to launch browser: "@ + msg@,
        BrowserError::Timeout => "Browser did not become ready within 15 seconds"@,
    }
}

impl BrowserError {
    /// A human-readable description of the error.
    pub fn describe(&self) -> (r: String)
        ensures
            r@ == browser_error_text(*self),
    {
        match self {
            BrowserError::LaunchFailed(msg) => {
                let mut s = String::from_str("Failed to launch browser: ");
                s.append(msg.as_str());
                s
            },
            BrowserError::Timeout => String::from_str("Browser did not become ready within 15 seconds"),
        }
    }
}

/// What loading the configuration can fail with.
#[derive(Debug)]
pub enum ConfigError {
    FileNotFound(String),
    ParseError(String),
}

/// The text that describes a configuration error.
pub open spec fn config_error_text(e: ConfigError) -> Seq<char> {
    match e {
        ConfigError::FileNotFound(path) => "Config file not found: "@ + path@,
        ConfigError::ParseError(msg) => "Config parse error: "@ + msg@,
    }
}

impl ConfigError {
    /// A human-readable description of the error.
    pub fn describe(&self) -> (r: String)
        ensures
            r@ == config_error_text(*self),
    {
        match self {
            ConfigError::FileNotFound(path) => {
                let mut s = String::from_str("Config file not found: ");
                s.append(path.as_str());
                s
            },
            ConfigError::ParseError(msg) => {
                let mut s = String::from_str("Config parse error: ");
                s.append(msg.as_str());
                s
            },
        }
    }
}

} // verus!
