//! Session guard and typing-ticket cache decisions.
pub mod config_cache;
pub mod session_guard;
