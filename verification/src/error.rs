//! What can go wrong between asking the daemon and holding its answer.

use vstd::prelude::*;

verus! {

/// The operating system's error for a channel operation. Its content is
/// never inspected here, only handed on inside an [`IpcError`].
#[verifier::external_type_specification]
#[verifier::external_body]
pub struct ExIoError(std::io::Error);

/// The JSON codec's error for a payload it could not write or read.
/// Carried through unread, like the operating system's.
#[verifier::external_type_specification]
#[verifier::external_body]
pub struct ExJsonError(serde_json::Error);

/// One classified failure of a query. Each exchange ends either with the
/// daemon's answer or with exactly one of these; nothing is retried.
#[derive(Debug)]
pub enum IpcError {
    /// The channel to the daemon could not be opened.
    ConnectionFailed(std::io::Error),
    /// No location for the daemon's socket could be worked out.
    SocketPathNotFound,
    /// The message could not be written as JSON.
    SerializationFailed(serde_json::Error),
    /// The payload that came back is not the JSON that was expected.
    DeserializationFailed(serde_json::Error),
    /// A payload of this many bytes is over [`crate::protocol::MAX_MESSAGE_SIZE`].
    MessageTooLarge(usize),
    /// Writing the frame to the channel failed.
    WriteFailed(std::io::Error),
    /// The channel failed, or ended, before a whole frame had been read.
    ReadFailed(std::io::Error),
    /// Flushing the channel after the frame failed.
    FlushFailed(std::io::Error),
    /// The daemon answered, and no service of this name is in its answer.
    ServiceNotFound(String),
}

} // verus!
