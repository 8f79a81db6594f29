//! Socket-option logic: per-platform option tables, payload codecs, and the
//! decisions behind each option operation, with round-trip laws over an ideal
//! model of the kernel's option store.

pub mod codec;
pub mod connect;
pub mod convert;
pub mod keepalive;
pub mod laws;
pub mod options;
pub mod platform;
