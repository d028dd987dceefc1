//! CDN upload helpers and AES-128-ECB encryption.
pub mod aes_ecb;
pub mod cdn_upload;
pub mod upload;
