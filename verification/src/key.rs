//! Handles to keys.

use core::marker::PhantomData;
use vstd::prelude::*;
use vstd::std_specs::cmp::PartialEqSpecImpl;
use crate::description::{parse_description, parsed_description, without_terminator};
use crate::description::{KeyDescription, KeyDescriptionView};
use crate::environment::Environment;
use crate::error::{Error, ErrorKind, ErrorSource};
use crate::keytype::{KeyKind, KeyType, ReadableKeyType, UpdatableKeyType};
use crate::request::{is_outcome, unusable_answer, Request, RequestView};
use crate::rules::{check_update, known, update_refusal};
use crate::serial::KeySerial;
use crate::text::to_vec;

verus! {

/// A handle to a key of type `T`. It holds the key's serial and nothing
/// else: the kernel owns the key, and the handle can be copied freely.
#[derive(Debug, Hash)]
pub struct Key<T> {
    serial: KeySerial,
    marker: PhantomData<T>,
}

impl<T> View for Key<T> {
    type V = KeySerial;

    /// A handle is its serial.
    closed spec fn view(&self) -> KeySerial {
        self.serial
    }
}

impl<T> Clone for Key<T> {
    fn clone(&self) -> (copy: Key<T>)
        ensures
            copy@ == self@,
    {
        Key { serial: self.serial, marker: PhantomData }
    }
}

impl<T> Copy for Key<T> {
}

impl<T> PartialEq for Key<T> {
    /// Two handles are equal where their serials are: they name the same
    /// key.
    fn eq(&self, other: &Key<T>) -> (equal: bool) {
        self.serial == other.serial
    }
}

impl<T> Eq for Key<T> {
}

impl<T> PartialEqSpecImpl for Key<T> {
    open spec fn obeys_eq_spec() -> bool {
        true
    }

    open spec fn eq_spec(&self, other: &Key<T>) -> bool {
        self@ == other@
    }
}

/// What asking to invalidate a key comes to: a kernel that is known to be
/// too old for it is not asked.
pub open spec fn invalidate_outcome(env: Option<Environment>, key: KeySerial) -> Result<
    RequestView,
    Error,
> {
    if env.is_some() && !env->0.supports_invalidate() {
        Err(Error::caller_spec(ErrorKind::UnsupportedKeyType))
    } else {
        Ok(RequestView::Invalidate { key })
    }
}

/// What asking to update a key of the given type comes to.
pub open spec fn update_outcome(
    env: Option<Environment>,
    key: KeySerial,
    kind: KeyKind,
    payload: Seq<u8>,
) -> Result<RequestView, Error> {
    match update_refusal(env, kind, payload) {
        Some(refusal) => Err(Error::caller_spec(refusal)),
        None => Ok(RequestView::Update { key, payload }),
    }
}

/// What the answer to a request for a key's description comes to.
pub open spec fn describe_outcome(reply: Result<Seq<u8>, i32>) -> Result<KeyDescriptionView, Error> {
    match reply {
        Ok(text) => match parsed_description(without_terminator(text)) {
            Some(what) => Ok(what),
            None => Err(unusable_answer()),
        },
        Err(errno) => Err(Error::kernel_spec(errno)),
    }
}

impl<T> Key<T> {
    /// The handle to the key with the given serial. Nothing is asked of
    /// the kernel: whether the key exists, and is of type `T`, shows when
    /// it is used.
    pub fn new(serial: KeySerial) -> (key: Key<T>)
        ensures
            key@ == serial,
    {
        Key { serial, marker: PhantomData }
    }

    /// The key's serial.
    pub fn serial(&self) -> (serial: KeySerial)
        ensures
            serial == self@,
    {
        self.serial
    }

    /// The request for the key's description.
    pub fn describe_request(&self) -> (request: Request)
        ensures
            request@ == (RequestView::Describe { key: self@ }),
    {
        Request::Describe { key: self.serial }
    }

    /// Reads the answer to a request for a description: the bytes that the
    /// kernel wrote, or the error number.
    pub fn describe_reply(reply: Result<Vec<u8>, i32>) -> (outcome: Result<KeyDescription, Error>)
        ensures
            match reply {
                Ok(text) => match outcome {
                    Ok(what) => describe_outcome(Ok(text@)) == Ok::<KeyDescriptionView, Error>(
                        what@,
                    ),
                    Err(error) => describe_outcome(Ok(text@)) == Err::<KeyDescriptionView, Error>(
                        error,
                    ),
                },
                Err(errno) => outcome == Err::<KeyDescription, Error>(Error::kernel_spec(errno)),
            },
    {
        match reply {
            Ok(text) => match parse_description(text.as_slice()) {
                Some(what) => Ok(what),
                None => Err(
                    Error { source: ErrorSource::Kernel, kind: ErrorKind::InvalidArgument },
                ),
            },
            Err(errno) => Err(Error::kernel(errno)),
        }
    }

    /// The request to destroy the key at once, whatever still links to it.
    /// Where the running kernel is known to be too old for that, the
    /// request is refused here as unsupported.
    pub fn invalidate_request(&self, env: Option<&Environment>) -> (request: Result<Request, Error>)
        ensures
            is_outcome(request, invalidate_outcome(known(env), self@)),
    {
        if let Some(e) = env {
            if !e.can_invalidate() {
                return Err(Error::caller(ErrorKind::UnsupportedKeyType));
            }
        }
        Ok(Request::Invalidate { key: self.serial })
    }

    /// The request to revoke the key.
    pub fn revoke_request(&self) -> (request: Request)
        ensures
            request@ == (RequestView::Revoke { key: self@ }),
    {
        Request::Revoke { key: self.serial }
    }
}

impl<T: KeyType> Key<T> {
    /// The kind of the key's type.
    pub fn kind(&self) -> (kind: KeyKind)
        ensures
            kind == T::kind(),
    {
        T::key_kind()
    }

    /// The request to give the key a new payload that is encoded already.
    /// A payload that a key of this type does not take is refused here as
    /// an invalid argument, and so is any payload where the type has no
    /// update; one that is longer than the user's whole quota is refused as
    /// exceeding it.
    pub fn update_raw_request(&self, env: Option<&Environment>, payload: &[u8]) -> (request: Result<
        Request,
        Error,
    >)
        ensures
            is_outcome(request, update_outcome(known(env), self@, T::kind(), payload@)),
    {
        check_update(env, T::key_kind(), payload)?;
        Ok(Request::Update { key: self.serial, payload: to_vec(payload) })
    }
}

impl<T: UpdatableKeyType> Key<T> {
    /// The request to give the key a new payload. The value is encoded as
    /// the type says; then the rules apply to the bytes as they do to a
    /// payload that is encoded already.
    pub fn update_request(&self, env: Option<&Environment>, update: &T::Update) -> (request: Result<
        Request,
        Error,
    >)
        ensures
            is_outcome(
                request,
                match T::update_encoded(update@) {
                    Some(payload) => update_outcome(known(env), self@, T::kind(), payload),
                    None => Err(Error::caller_spec(ErrorKind::InvalidArgument)),
                },
            ),
    {
        let payload = T::encode_update(update)?;
        check_update(env, T::key_kind(), payload.as_slice())?;
        Ok(Request::Update { key: self.serial, payload })
    }
}

impl<T: ReadableKeyType> Key<T> {
    /// The request to read the key's payload.
    pub fn read_request(&self) -> (request: Request)
        ensures
            request@ == (RequestView::Read { key: self@ }),
    {
        Request::Read { key: self.serial }
    }

    /// Reads the answer to a request for the payload: the bytes that the
    /// kernel wrote, or the error number. The bytes are decoded as the
    /// type says; bytes that the type cannot decode are an invalid answer.
    pub fn read_reply(reply: Result<Vec<u8>, i32>) -> (outcome: Result<T::Value, Error>)
        ensures
            match reply {
                Ok(bytes) => match outcome {
                    Ok(value) => T::decoded(bytes@) == Some(value@),
                    Err(error) => T::decoded(bytes@).is_none() && error == unusable_answer(),
                },
                Err(errno) => outcome matches Err(error) && error == Error::kernel_spec(errno),
            },
    {
        match reply {
            Ok(bytes) => T::decode(bytes.as_slice()),
            Err(errno) => Err(Error::kernel(errno)),
        }
    }
}

} // verus!
