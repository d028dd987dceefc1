//! Long-poll monitor decisions.
pub mod poll_loop;
