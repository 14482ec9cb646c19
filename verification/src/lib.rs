//! Client side of the kodegend status channel.
//!
//! The daemon is reached over a local duplex byte stream: a domain socket
//! where the platform has them, a named pipe elsewhere. One query is one
//! exchange on a channel of its own: a frame goes out, a frame comes back,
//! the channel is dropped.
//!
//! This crate holds every decision of that exchange and performs none of
//! its input or output. [`connection`] picks the endpoint from what the
//! environment offers, [`protocol`] says which bytes to write and how many
//! to read next, and [`query`] turns queries into payloads and payloads into
//! answers. A driver owns the channel and reports back what each operation
//! gave.

pub mod connection;
pub mod error;
pub mod protocol;
pub mod query;

pub use error::IpcError;
