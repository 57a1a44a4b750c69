//! What is asked of the kernel, and how its answers are read.
//!
//! A `Request` is one system call with its arguments as plain values. The
//! caller performs it and hands back what came of it: the call's result, or
//! the error number, and for calls that fill a buffer the bytes.

use vstd::prelude::*;
use crate::error::{Error, ErrorKind, ErrorSource};
use crate::keytype::KeyKind;
use crate::serial::KeySerial;

verus! {

/// One call into the kernel's key service.
#[derive(Clone, Debug, PartialEq, Eq, Hash)]
pub enum Request {
    /// Resolve a special keyring to its serial; with `create`, make it
    /// first if it does not exist.
    GetKeyringId { id: KeySerial, create: bool },
    /// Make a key, or update the key of that type and description, in a
    /// keyring.
    AddKey { kind: KeyKind, description: Vec<u8>, payload: Vec<u8>, keyring: KeySerial },
    /// Give a key a new payload.
    Update { key: KeySerial, payload: Vec<u8> },
    /// Read the payload of a key.
    Read { key: KeySerial },
    /// Read the description of a key.
    Describe { key: KeySerial },
    /// Put a key into a keyring.
    Link { key: KeySerial, keyring: KeySerial },
    /// Take a key out of a keyring.
    Unlink { key: KeySerial, keyring: KeySerial },
    /// Look for a key of a type and description in a keyring and below it;
    /// with a destination, link what is found there.
    Search {
        keyring: KeySerial,
        kind: KeyKind,
        description: Vec<u8>,
        destination: Option<KeySerial>,
    },
    /// Ask for a key of a type and description: the kernel searches the
    /// caller's keyrings and, where it finds none, may have the key made
    /// by a helper, which is handed the callout text. With a destination,
    /// the key is linked there.
    RequestKey {
        kind: KeyKind,
        description: Vec<u8>,
        callout: Option<Vec<u8>>,
        destination: Option<KeySerial>,
    },
    /// Destroy a key at once, whatever still links to it.
    Invalidate { key: KeySerial },
    /// Revoke a key: it stays, and every use of it fails.
    Revoke { key: KeySerial },
    /// Let a keyring admit only keys that meet a restriction of a key type.
    Restrict { keyring: KeySerial, kind: KeyKind, restriction: Vec<u8> },
}

/// A request as plain values.
pub enum RequestView {
    GetKeyringId { id: KeySerial, create: bool },
    AddKey { kind: KeyKind, description: Seq<u8>, payload: Seq<u8>, keyring: KeySerial },
    Update { key: KeySerial, payload: Seq<u8> },
    Read { key: KeySerial },
    Describe { key: KeySerial },
    Link { key: KeySerial, keyring: KeySerial },
    Unlink { key: KeySerial, keyring: KeySerial },
    Search {
        keyring: KeySerial,
        kind: KeyKind,
        description: Seq<u8>,
        destination: Option<KeySerial>,
    },
    RequestKey {
        kind: KeyKind,
        description: Seq<u8>,
        callout: Option<Seq<u8>>,
        destination: Option<KeySerial>,
    },
    Invalidate { key: KeySerial },
    Revoke { key: KeySerial },
    Restrict { keyring: KeySerial, kind: KeyKind, restriction: Seq<u8> },
}

impl View for Request {
    type V = RequestView;

    open spec fn view(&self) -> RequestView {
        match self {
            Request::GetKeyringId { id, create } => RequestView::GetKeyringId {
                id: *id,
                create: *create,
            },
            Request::AddKey { kind, description, payload, keyring } => RequestView::AddKey {
                kind: *kind,
                description: description@,
                payload: payload@,
                keyring: *keyring,
            },
            Request::Update { key, payload } => RequestView::Update { key: *key, payload: payload@ },
            Request::Read { key } => RequestView::Read { key: *key },
            Request::Describe { key } => RequestView::Describe { key: *key },
            Request::Link { key, keyring } => RequestView::Link { key: *key, keyring: *keyring },
            Request::Unlink { key, keyring } => RequestView::Unlink {
                key: *key,
                keyring: *keyring,
            },
            Request::Search { keyring, kind, description, destination } => RequestView::Search {
                keyring: *keyring,
                kind: *kind,
                description: description@,
                destination: *destination,
            },
            Request::RequestKey { kind, description, callout, destination } => {
                RequestView::RequestKey {
                    kind: *kind,
                    description: description@,
                    callout: match callout {
                        Some(text) => Some(text@),
                        None => None,
                    },
                    destination: *destination,
                }
            },
            Request::Invalidate { key } => RequestView::Invalidate { key: *key },
            Request::Revoke { key } => RequestView::Revoke { key: *key },
            Request::Restrict { keyring, kind, restriction } => RequestView::Restrict {
                keyring: *keyring,
                kind: *kind,
                restriction: restriction@,
            },
        }
    }
}

/// Whether a built request is the one that was meant: `built` holds the
/// request exactly where `meant` does, and the same error where it does not.
pub open spec fn is_outcome(built: Result<Request, Error>, meant: Result<RequestView, Error>) -> bool {
    match built {
        Ok(request) => meant == Ok::<RequestView, Error>(request@),
        Err(error) => meant == Err::<RequestView, Error>(error),
    }
}

/// The error for an answer of the kernel that cannot be what it should be.
pub open spec fn unusable_answer() -> Error {
    Error { source: ErrorSource::Kernel, kind: ErrorKind::InvalidArgument }
}

/// What a call that only succeeds or fails came to.
pub open spec fn completion(reply: Result<i64, i32>) -> Result<(), Error> {
    match reply {
        Ok(_) => Ok(()),
        Err(errno) => Err(Error::kernel_spec(errno)),
    }
}

/// The serial that a call answered with. The kernel numbers its objects
/// from one upwards, within 31 bits: any other number is no serial.
pub open spec fn answered_serial(reply: Result<i64, i32>) -> Result<int, Error> {
    match reply {
        Ok(value) => if 0 < value <= i32::MAX {
            Ok(value as int)
        } else {
            Err(unusable_answer())
        },
        Err(errno) => Err(Error::kernel_spec(errno)),
    }
}

/// Reads the answer to a call that only succeeds or fails. On failure the
/// error is the kind of the error number, whatever the call was.
pub fn completed(reply: Result<i64, i32>) -> (outcome: Result<(), Error>)
    ensures
        outcome == completion(reply),
{
    match reply {
        Ok(_) => Ok(()),
        Err(errno) => Err(Error::kernel(errno)),
    }
}

/// Reads the answer to a call that gives a serial.
pub fn serial_of_reply(reply: Result<i64, i32>) -> (outcome: Result<KeySerial, Error>)
    ensures
        match outcome {
            Ok(serial) => answered_serial(reply) == Ok::<int, Error>(serial.value()),
            Err(error) => answered_serial(reply) == Err::<int, Error>(error),
        },
{
    match reply {
        Ok(value) => {
            if 0 < value && value <= 0x7fff_ffff {
                match KeySerial::new(value as i32) {
                    Ok(serial) => Ok(serial),
                    Err(_) => Err(
                        Error { source: ErrorSource::Kernel, kind: ErrorKind::InvalidArgument },
                    ),
                }
            } else {
                Err(Error { source: ErrorSource::Kernel, kind: ErrorKind::InvalidArgument })
            }
        },
        Err(errno) => Err(Error::kernel(errno)),
    }
}

/// What to do after a call that fills a buffer.
#[derive(Clone, Copy, Debug, PartialEq, Eq, Structural, Hash)]
pub enum BufferStep {
    /// The buffer holds the whole answer in its first `len` bytes.
    Done { len: usize },
    /// The answer did not fit: call again with a buffer of `capacity` bytes.
    Grow { capacity: usize },
}

/// What to do after a call that filled a buffer of `capacity` bytes and
/// returned `returned`, the length of the whole answer.
pub open spec fn buffer_step(capacity: usize, returned: i64) -> Result<BufferStep, Error> {
    if returned < 0 || returned > usize::MAX {
        Err(unusable_answer())
    } else if returned <= capacity {
        Ok(BufferStep::Done { len: returned as usize })
    } else {
        Ok(BufferStep::Grow { capacity: returned as usize })
    }
}

/// Decides what follows a call that fills a buffer. The kernel returns the
/// length of the whole answer even where the buffer was too short for it,
/// so one more call with a buffer of that length is the next step; the
/// answer may have grown again by then. A negative length is no answer.
pub fn next_buffer_step(capacity: usize, returned: i64) -> (step: Result<BufferStep, Error>)
    ensures
        step == buffer_step(capacity, returned),
{
    if returned < 0 || returned as u64 > usize::MAX as u64 {
        Err(Error { source: ErrorSource::Kernel, kind: ErrorKind::InvalidArgument })
    } else if returned as u64 <= capacity as u64 {
        Ok(BufferStep::Done { len: returned as usize })
    } else {
        Ok(BufferStep::Grow { capacity: returned as usize })
    }
}

} // verus!
