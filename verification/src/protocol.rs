//! The frame on the wire, and the order in which an exchange writes and
//! reads.
//!
//! A frame is a four-byte little-endian length followed by that many bytes
//! of payload. A payload never exceeds [`MAX_MESSAGE_SIZE`], neither on the
//! way out nor on the way in.
//!
//! An [`Exchange`] is one request and its response on an open channel. It
//! never touches the channel. It names the next [`Action`], the driver
//! performs it and reports the outcome to [`Exchange::step`], until a
//! [`Step::Done`] carries the response payload or the one error that ended
//! the exchange.

use vstd::prelude::*;
use vstd::pervasive::unreached;
use vstd::slice::{slice_subrange, slice_to_vec};
use crate::error::IpcError;

verus! {

/// Largest payload, in bytes, that is sent or accepted.
pub const MAX_MESSAGE_SIZE: usize = 1_048_576;

/// Number of bytes of the length prefix.
pub const PREFIX_SIZE: usize = 4;

/// The prefix that announces a payload of `len` bytes: the digits of `len`
/// in base 256, least significant first.
pub open spec fn length_prefix(len: nat) -> Seq<u8>
    recommends
        len < 0x1_0000_0000,
{
    seq![
        (len % 256) as u8,
        (len / 0x100 % 256) as u8,
        (len / 0x1_0000 % 256) as u8,
        (len / 0x100_0000 % 256) as u8,
    ]
}

/// The payload length that a prefix announces.
pub open spec fn declared_length(prefix: Seq<u8>) -> nat
    recommends
        prefix.len() == 4,
{
    (prefix[0] + 0x100 * prefix[1] + 0x1_0000 * prefix[2] + 0x100_0000 * prefix[3]) as nat
}

/// The bytes on the wire for one payload.
pub open spec fn frame(payload: Seq<u8>) -> Seq<u8> {
    length_prefix(payload.len()) + payload
}

/// Writes a length as its four prefix bytes.
pub fn encode_length(len: u32) -> (prefix: Vec<u8>)
    ensures
        prefix@ == length_prefix(len as nat),
{
    let mut prefix: Vec<u8> = Vec::with_capacity(4);
    prefix.push((len % 256) as u8);
    prefix.push((len / 0x100 % 256) as u8);
    prefix.push((len / 0x1_0000 % 256) as u8);
    prefix.push((len / 0x100_0000 % 256) as u8);
    assert(prefix@ =~= length_prefix(len as nat));
    prefix
}

/// Reads the length that four prefix bytes announce.
pub fn decode_length(prefix: [u8; 4]) -> (len: u32)
    ensures
        len == declared_length(prefix@),
{
    let b0: u32 = prefix[0] as u32;
    let b1: u32 = prefix[1] as u32;
    let b2: u32 = prefix[2] as u32;
    let b3: u32 = prefix[3] as u32;
    b0 + 0x100 * b1 + 0x1_0000 * b2 + 0x100_0000 * b3
}

/// Every length that fits the prefix is read back from its prefix.
pub proof fn lemma_length_round_trip(len: nat)
    requires
        len < 0x1_0000_0000,
    ensures
        length_prefix(len).len() == 4,
        declared_length(length_prefix(len)) == len,
{
}

/// What the driver is asked to do on the channel.
#[derive(Debug)]
pub enum Action {
    /// Write all of these bytes.
    Write(Vec<u8>),
    /// Flush what was written.
    Flush,
    /// Read exactly this many bytes.
    Read(usize),
}

/// Where an exchange stands: the operation whose outcome it waits for.
#[derive(Debug)]
pub enum Exchange {
    /// The prefix is being written; the payload comes next.
    SendingPrefix { payload: Vec<u8> },
    /// The payload is being written.
    SendingPayload,
    /// The channel is being flushed.
    Flushing,
    /// The four prefix bytes of the response are being read.
    ReadingPrefix,
    /// The `len` payload bytes of the response are being read.
    ReadingPayload { len: usize },
}

/// What an exchange does next.
#[derive(Debug)]
pub enum Step {
    /// Perform the action and report its outcome to the exchange.
    Next(Exchange, Action),
    /// The exchange is over: the response payload, or the error that ended it.
    Done(Result<Vec<u8>, IpcError>),
}

/// An error of the kind a channel reports when it ends before the bytes
/// asked for have arrived. Made by `std::io::Error::from` on
/// `ErrorKind::UnexpectedEof`; nothing is claimed of the value.
#[verifier::external_body]
fn end_of_stream() -> (error: std::io::Error) {
    std::io::Error::from(std::io::ErrorKind::UnexpectedEof)
}

/// The first step of sending a message whose JSON text is `serialized`.
///
/// A message that could not be serialized, or whose text is over the limit,
/// ends the exchange before anything is written. Otherwise the prefix is to
/// be written, and the payload waits in the exchange.
pub fn send_message(serialized: Result<Vec<u8>, serde_json::Error>) -> (first: Step)
    ensures
        match serialized {
            Err(cause) => first == Step::Done(Err(IpcError::SerializationFailed(cause))),
            Ok(json) => if json@.len() > MAX_MESSAGE_SIZE {
                first == Step::Done(Err(IpcError::MessageTooLarge(json@.len() as usize)))
            } else {
                &&& first matches Step::Next(Exchange::SendingPrefix { payload }, Action::Write(prefix))
                &&& payload@ == json@
                &&& prefix@ == length_prefix(json@.len())
            },
        },
        first matches Step::Next(exchange, action) ==> exchange.well_formed()
            && action.within_limit(),
{
    match serialized {
        Err(cause) => Step::Done(Err(IpcError::SerializationFailed(cause))),
        Ok(json) => {
            let len: usize = json.len();
            if len > MAX_MESSAGE_SIZE {
                Step::Done(Err(IpcError::MessageTooLarge(len)))
            } else {
                let prefix = encode_length(len as u32);
                Step::Next(Exchange::SendingPrefix { payload: json }, Action::Write(prefix))
            }
        },
    }
}

/// The last step of receiving a message: what the codec read from the
/// payload, with its error classified.
pub fn deserialized<T>(parsed: Result<T, serde_json::Error>) -> (message: Result<T, IpcError>)
    ensures
        match parsed {
            Ok(value) => message == Ok::<T, IpcError>(value),
            Err(cause) => message == Err::<T, IpcError>(IpcError::DeserializationFailed(cause)),
        },
{
    match parsed {
        Ok(value) => Ok(value),
        Err(cause) => Err(IpcError::DeserializationFailed(cause)),
    }
}

impl Action {
    /// Whether the action stays within what a frame may hold: a write of
    /// at most a whole payload, a read of at most a whole payload.
    pub open spec fn within_limit(self) -> bool {
        match self {
            Action::Write(bytes) => bytes@.len() <= MAX_MESSAGE_SIZE,
            Action::Flush => true,
            Action::Read(len) => len <= MAX_MESSAGE_SIZE,
        }
    }
}

impl Exchange {
    /// Whether the exchange holds no more than a frame may: the payload
    /// that waits to be written, and the length that is being read, are
    /// within [`MAX_MESSAGE_SIZE`]. [`send_message`] starts every exchange
    /// so, and [`Exchange::step`] keeps it so.
    pub open spec fn well_formed(self) -> bool {
        match self {
            Exchange::SendingPrefix { payload } => payload@.len() <= MAX_MESSAGE_SIZE,
            Exchange::ReadingPayload { len } => len <= MAX_MESSAGE_SIZE,
            _ => true,
        }
    }

    /// Whether `after` is the step that follows when the operation this
    /// exchange waits for ends with `outcome`.
    ///
    /// A failed write ends the exchange with `WriteFailed`, a failed flush
    /// with `FlushFailed`, a failed read with `ReadFailed`, each carrying
    /// the cause. A read that hands over another number of bytes than was
    /// asked for is a failed read. A prefix that announces more than
    /// [`MAX_MESSAGE_SIZE`] ends the exchange with `MessageTooLarge` and no
    /// further read.
    pub open spec fn follows(self, outcome: Result<Vec<u8>, std::io::Error>, after: Step) -> bool {
        match (self, outcome) {
            (Exchange::SendingPrefix { payload }, Ok(_)) => {
                &&& after matches Step::Next(Exchange::SendingPayload, Action::Write(bytes))
                &&& bytes@ == payload@
            },
            (Exchange::SendingPrefix { .. }, Err(cause)) => after == Step::Done(
                Err(IpcError::WriteFailed(cause)),
            ),
            (Exchange::SendingPayload, Ok(_)) => after == Step::Next(
                Exchange::Flushing,
                Action::Flush,
            ),
            (Exchange::SendingPayload, Err(cause)) => after == Step::Done(
                Err(IpcError::WriteFailed(cause)),
            ),
            (Exchange::Flushing, Ok(_)) => after == Step::Next(
                Exchange::ReadingPrefix,
                Action::Read(PREFIX_SIZE),
            ),
            (Exchange::Flushing, Err(cause)) => after == Step::Done(
                Err(IpcError::FlushFailed(cause)),
            ),
            (Exchange::ReadingPrefix, Ok(bytes)) => if bytes@.len() != PREFIX_SIZE {
                after matches Step::Done(Err(IpcError::ReadFailed(_)))
            } else if declared_length(bytes@) > MAX_MESSAGE_SIZE {
                after == Step::Done(
                    Err(IpcError::MessageTooLarge(declared_length(bytes@) as usize)),
                )
            } else {
                after == Step::Next(
                    Exchange::ReadingPayload { len: declared_length(bytes@) as usize },
                    Action::Read(declared_length(bytes@) as usize),
                )
            },
            (Exchange::ReadingPrefix, Err(cause)) => after == Step::Done(
                Err(IpcError::ReadFailed(cause)),
            ),
            (Exchange::ReadingPayload { len }, Ok(bytes)) => if bytes@.len() != len {
                after matches Step::Done(Err(IpcError::ReadFailed(_)))
            } else {
                &&& after matches Step::Done(Ok(payload))
                &&& payload@ == bytes@
            },
            (Exchange::ReadingPayload { .. }, Err(cause)) => after == Step::Done(
                Err(IpcError::ReadFailed(cause)),
            ),
        }
    }

    /// Takes the outcome of the action that was asked for last: `Ok` with
    /// the bytes read (with anything, after a write or a flush), or the
    /// channel's error. Gives the step that follows.
    pub fn step(self, outcome: Result<Vec<u8>, std::io::Error>) -> (after: Step)
        ensures
            self.follows(outcome, after),
            self.well_formed() ==> (after matches Step::Next(next, action) ==> next.well_formed()
                && action.within_limit()),
    {
        match self {
            Exchange::SendingPrefix { payload } => match outcome {
                Ok(_) => Step::Next(Exchange::SendingPayload, Action::Write(payload)),
                Err(cause) => Step::Done(Err(IpcError::WriteFailed(cause))),
            },
            Exchange::SendingPayload => match outcome {
                Ok(_) => Step::Next(Exchange::Flushing, Action::Flush),
                Err(cause) => Step::Done(Err(IpcError::WriteFailed(cause))),
            },
            Exchange::Flushing => match outcome {
                Ok(_) => Step::Next(Exchange::ReadingPrefix, Action::Read(PREFIX_SIZE)),
                Err(cause) => Step::Done(Err(IpcError::FlushFailed(cause))),
            },
            Exchange::ReadingPrefix => match outcome {
                Ok(bytes) => {
                    if bytes.len() != PREFIX_SIZE {
                        Step::Done(Err(IpcError::ReadFailed(end_of_stream())))
                    } else {
                        let prefix: [u8; 4] = [bytes[0], bytes[1], bytes[2], bytes[3]];
                        assert(prefix@ =~= bytes@);
                        let len: usize = decode_length(prefix) as usize;
                        if len > MAX_MESSAGE_SIZE {
                            Step::Done(Err(IpcError::MessageTooLarge(len)))
                        } else {
                            Step::Next(Exchange::ReadingPayload { len }, Action::Read(len))
                        }
                    }
                },
                Err(cause) => Step::Done(Err(IpcError::ReadFailed(cause))),
            },
            Exchange::ReadingPayload { len } => match outcome {
                Ok(bytes) => {
                    if bytes.len() != len {
                        Step::Done(Err(IpcError::ReadFailed(end_of_stream())))
                    } else {
                        Step::Done(Ok(bytes))
                    }
                },
                Err(cause) => Step::Done(Err(IpcError::ReadFailed(cause))),
            },
        }
    }
}

/// No step of a well-formed exchange asks for more than a frame may hold,
/// and the exchange stays well-formed: a declared length over the limit is
/// neither written nor read.
pub proof fn lemma_step_keeps_the_limit(
    exchange: Exchange,
    outcome: Result<Vec<u8>, std::io::Error>,
    after: Step,
)
    requires
        exchange.well_formed(),
        exchange.follows(outcome, after),
    ensures
        after matches Step::Next(next, action) ==> next.well_formed() && action.within_limit(),
{
}

/// The two writes of an exchange, prefix first, put exactly the frame of
/// its payload on the wire.
pub proof fn lemma_writes_make_the_frame(
    payload: Vec<u8>,
    prefix: Vec<u8>,
    written: Vec<u8>,
    after: Step,
)
    requires
        prefix@ == length_prefix(payload@.len()),
        (Exchange::SendingPrefix { payload }).follows(Ok(written), after),
    ensures
        after matches Step::Next(Exchange::SendingPayload, Action::Write(bytes)) && prefix@
            + bytes@ == frame(payload@),
{
}

/// A prefix that announces more than the limit ends the exchange with
/// `MessageTooLarge` and the announced length. No read follows it, so not
/// one byte of the announced payload is taken from the channel.
pub proof fn lemma_oversized_prefix_ends_the_exchange(prefix: Vec<u8>, after: Step)
    requires
        prefix@.len() == PREFIX_SIZE,
        declared_length(prefix@) > MAX_MESSAGE_SIZE,
        Exchange::ReadingPrefix.follows(Ok(prefix), after),
    ensures
        after == Step::Done(Err(IpcError::MessageTooLarge(declared_length(prefix@) as usize))),
        !(after matches Step::Next(_, _)),
{
}

/// A channel that ends inside the prefix, whether it reports an error or
/// hands over fewer than four bytes, ends the exchange with `ReadFailed`.
/// A short prefix is never read as a length.
pub proof fn lemma_short_prefix_is_a_failed_read(
    outcome: Result<Vec<u8>, std::io::Error>,
    after: Step,
)
    requires
        outcome matches Ok(bytes) ==> bytes@.len() < PREFIX_SIZE,
        Exchange::ReadingPrefix.follows(outcome, after),
    ensures
        after matches Step::Done(Err(IpcError::ReadFailed(_))),
{
}

/// What reading one frame from the front of a byte sequence comes to.
pub enum Received {
    /// A whole frame was there, with this payload.
    Payload(Seq<u8>),
    /// The prefix announces this many bytes, more than is accepted.
    TooLarge(nat),
    /// The bytes end before the frame does.
    Truncated,
}

/// Reads one frame from the front of `wire`. Bytes behind the frame are
/// left alone, and a prefix over the limit is refused whatever follows it.
pub open spec fn received(wire: Seq<u8>) -> Received {
    if wire.len() < PREFIX_SIZE {
        Received::Truncated
    } else {
        let len = declared_length(wire.subrange(0, PREFIX_SIZE as int));
        if len > MAX_MESSAGE_SIZE {
            Received::TooLarge(len)
        } else if wire.len() < PREFIX_SIZE + len {
            Received::Truncated
        } else {
            Received::Payload(wire.subrange(PREFIX_SIZE as int, PREFIX_SIZE + len))
        }
    }
}

/// A frame that was written is read back, and what follows it on the wire
/// does not matter.
pub proof fn lemma_frame_round_trip(payload: Seq<u8>, rest: Seq<u8>)
    requires
        payload.len() <= MAX_MESSAGE_SIZE,
    ensures
        received(frame(payload)) == Received::Payload(payload),
        received(frame(payload) + rest) == Received::Payload(payload),
{
    let len = payload.len();
    lemma_length_round_trip(len);
    let wire = frame(payload);
    assert(wire.subrange(0, 4) =~= length_prefix(len));
    assert(wire.subrange(4, 4 + len as int) =~= payload);
    let longer = wire + rest;
    assert(longer.subrange(0, 4) =~= length_prefix(len));
    assert(longer.subrange(4, 4 + len as int) =~= payload);
}

/// What a channel that holds exactly the bytes of `wire`, already read up
/// to `from`, gives to a read of exactly `len` bytes.
fn deliver(wire: &[u8], from: usize, len: usize) -> (outcome: Result<Vec<u8>, std::io::Error>)
    requires
        from <= wire@.len(),
    ensures
        match outcome {
            Ok(bytes) => from + len <= wire@.len() && bytes@ == wire@.subrange(
                from as int,
                from + len,
            ),
            Err(_) => from + len > wire@.len(),
        },
{
    if wire.len() - from >= len {
        Ok(slice_to_vec(slice_subrange(wire, from, from + len)))
    } else {
        Err(end_of_stream())
    }
}

/// The bytes that an exchange puts on the wire for `payload`, gathered in
/// memory: its writes up to the flush, in order.
pub fn encode_frame(payload: Vec<u8>) -> (result: Result<Vec<u8>, IpcError>)
    ensures
        match result {
            Ok(wire) => payload@.len() <= MAX_MESSAGE_SIZE && wire@ == frame(payload@),
            Err(error) => payload@.len() > MAX_MESSAGE_SIZE && error == IpcError::MessageTooLarge(
                payload@.len() as usize,
            ),
        },
{
    match send_message(Ok(payload)) {
        Step::Done(result) => result,
        Step::Next(waiting, Action::Write(mut wire)) => match waiting.step(Ok(Vec::new())) {
            Step::Next(_, Action::Write(mut body)) => {
                wire.append(&mut body);
                Ok(wire)
            },
            _ => unreached(),
        },
        _ => unreached(),
    }
}

/// Runs the reading half of an exchange on a channel that holds exactly
/// the bytes of `wire`, and gives the payload of the frame at its front.
pub fn decode_frame(wire: &[u8]) -> (result: Result<Vec<u8>, IpcError>)
    ensures
        match received(wire@) {
            Received::Payload(payload) => result matches Ok(bytes) && bytes@ == payload,
            Received::TooLarge(len) => result == Err::<Vec<u8>, IpcError>(
                IpcError::MessageTooLarge(len as usize),
            ),
            Received::Truncated => result matches Err(IpcError::ReadFailed(_)),
        },
{
    match Exchange::ReadingPrefix.step(deliver(wire, 0, PREFIX_SIZE)) {
        Step::Done(result) => result,
        Step::Next(waiting, Action::Read(len)) => match waiting.step(
            deliver(wire, PREFIX_SIZE, len),
        ) {
            Step::Done(result) => result,
            _ => unreached(),
        },
        _ => unreached(),
    }
}

} // verus!
