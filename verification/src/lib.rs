//! Protocol SDK for the Weixin iLink Bot API.
use vstd::prelude::*;

pub mod api;
pub mod cdn;
pub mod config;
pub mod error;
pub mod media;
pub mod messaging;
pub mod monitor;
pub mod qr_login;
pub mod types;
pub mod util;

verus! {

} // verus!
