//! QR code login: request paths and status interpretation.
pub mod login;
