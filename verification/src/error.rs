//! Unified error types for the weixin-agent SDK.
use vstd::prelude::*;
use crate::util::text::{decimal, push_decimal, push_str, string_from_chars};

verus! {

/// All errors produced by this SDK.
///
/// Transport, JSON and I/O failures carry the message of the underlying error.
#[derive(Debug)]
#[non_exhaustive]
pub enum Error {
    /// HTTP transport error.
    Http(String),
    /// JSON serialization/deserialization error.
    Json(String),
    /// File I/O error.
    Io(String),
    /// Server returned a non-zero error code.
    Api {
        /// Server error code.
        errcode: i32,
        /// Server error message.
        errmsg: String,
    },
    /// Session expired; the monitor will pause for one hour.
    SessionExpired,
    /// CDN upload failure.
    CdnUpload(String),
    /// AES encryption/decryption failure.
    Crypto(String),
    /// Invalid configuration.
    Config(String),
    /// Operation timed out.
    Timeout(String),
}

/// Decimal text of a signed integer: a minus sign before the magnitude when negative.
pub open spec fn signed_decimal(n: int) -> Seq<char> {
    if n < 0 {
        seq!['-'] + decimal((-n) as nat)
    } else {
        decimal(n as nat)
    }
}

/// The human-readable message of each error: a fixed prefix per kind followed
/// by what the error carries.
pub open spec fn error_message(e: Error) -> Seq<char> {
    match e {
        Error::Http(m) => "HTTP request failed: "@ + m@,
        Error::Json(m) => "JSON error: "@ + m@,
        Error::Io(m) => "I/O error: "@ + m@,
        Error::Api { errcode, errmsg } => "API error: errcode="@ + signed_decimal(errcode as int)
            + ", errmsg="@ + errmsg@,
        Error::SessionExpired => "Session expired for account, paused until cooldown"@,
        Error::CdnUpload(m) => "CDN upload failed: "@ + m@,
        Error::Crypto(m) => "Encryption error: "@ + m@,
        Error::Config(m) => "Configuration error: "@ + m@,
        Error::Timeout(m) => "Timeout: "@ + m@,
    }
}

impl Error {
    /// The error's message, as it is shown to users.
    pub fn message(&self) -> (s: String)
        ensures
            s@ == error_message(*self),
    {
        let mut out: Vec<char> = Vec::new();
        match self {
            Error::Http(m) => {
                push_str(&mut out, "HTTP request failed: ");
                push_str(&mut out, m.as_str());
            },
            Error::Json(m) => {
                push_str(&mut out, "JSON error: ");
                push_str(&mut out, m.as_str());
            },
            Error::Io(m) => {
                push_str(&mut out, "I/O error: ");
                push_str(&mut out, m.as_str());
            },
            Error::Api { errcode, errmsg } => {
                push_str(&mut out, "API error: errcode=");
                let code: i32 = *errcode;
                if code < 0 {
                    out.push('-');
                    let mag: u128 = (0i64 - (code as i64)) as u128;
                    push_decimal(&mut out, mag);
                } else {
                    push_decimal(&mut out, code as u128);
                }
                push_str(&mut out, ", errmsg=");
                push_str(&mut out, errmsg.as_str());
            },
            Error::SessionExpired => {
                push_str(&mut out, "Session expired for account, paused until cooldown");
            },
            Error::CdnUpload(m) => {
                push_str(&mut out, "CDN upload failed: ");
                push_str(&mut out, m.as_str());
            },
            Error::Crypto(m) => {
                push_str(&mut out, "Encryption error: ");
                push_str(&mut out, m.as_str());
            },
            Error::Config(m) => {
                push_str(&mut out, "Configuration error: ");
                push_str(&mut out, m.as_str());
            },
            Error::Timeout(m) => {
                push_str(&mut out, "Timeout: ");
                push_str(&mut out, m.as_str());
            },
        }
        string_from_chars(out.as_slice())
    }
}

/// Convenience alias used throughout the SDK.
pub type Result<T> = core::result::Result<T, Error>;

} // verus!
