//! Outbound message construction.
pub mod send;
pub mod send_media;
