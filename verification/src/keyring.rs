//! Handles to keyrings, and the requests that make, find and move keys.

use vstd::prelude::*;
use vstd::string::*;
use crate::environment::Environment;
use crate::error::{Error, ErrorKind};
use crate::key::Key;
use crate::keytype::{KeyKind, KeyType};
use crate::keytypes::asymmetric::AsymmetricRestriction;
use crate::request::{answered_serial, is_outcome, serial_of_reply, Request, RequestView};
use crate::rules::{add_key_refusal, check_add_key, check_description, description_refusal, known};
use crate::serial::{KeySerial, SpecialKeyring};
use crate::text::{contains_byte, to_vec};

verus! {

/// A handle to a keyring. It holds the keyring's serial and nothing else:
/// the kernel keeps the members, and every change to them is a request.
#[derive(Clone, Copy, Debug, PartialEq, Eq, Structural, Hash)]
pub struct Keyring {
    serial: KeySerial,
}

impl View for Keyring {
    type V = KeySerial;

    /// A handle is its serial.
    closed spec fn view(&self) -> KeySerial {
        self.serial
    }
}

/// Keyring handles are equal exactly when their serials are.
pub proof fn lemma_keyring_is_its_serial(a: Keyring, b: Keyring)
    ensures
        (a == b) <==> (a@ == b@),
{
}

/// What asking to make a key comes to. The description is held to the
/// rules first; then the payload must be one that the type can encode;
/// then the other rules apply to the encoded payload. What passes them all
/// is sent as it is: the type's name, the description and the payload,
/// none of them changed.
pub open spec fn add_key_outcome(
    env: Option<Environment>,
    keyring: KeySerial,
    kind: KeyKind,
    description: Seq<u8>,
    payload: Option<Seq<u8>>,
) -> Result<RequestView, Error> {
    if description_refusal(env, description).is_some() {
        Err(Error::caller_spec(description_refusal(env, description)->0))
    } else if payload.is_none() {
        Err(Error::caller_spec(ErrorKind::InvalidArgument))
    } else if add_key_refusal(env, kind, description, payload->0).is_some() {
        Err(Error::caller_spec(add_key_refusal(env, kind, description, payload->0)->0))
    } else {
        Ok(RequestView::AddKey { kind, description, payload: payload->0, keyring })
    }
}

/// What asking to search a keyring comes to.
pub open spec fn search_outcome(
    env: Option<Environment>,
    keyring: KeySerial,
    kind: KeyKind,
    description: Seq<u8>,
    destination: Option<KeySerial>,
) -> Result<RequestView, Error> {
    match description_refusal(env, description) {
        Some(refusal) => Err(Error::caller_spec(refusal)),
        None => Ok(RequestView::Search { keyring, kind, description, destination }),
    }
}

/// What asking the kernel for a key comes to. The callout text, like the
/// description, is handed over as text that a NUL ends: one that holds a
/// NUL is refused as an invalid argument.
pub open spec fn request_key_outcome(
    env: Option<Environment>,
    kind: KeyKind,
    description: Seq<u8>,
    callout: Option<Seq<u8>>,
    destination: Option<KeySerial>,
) -> Result<RequestView, Error> {
    if description_refusal(env, description).is_some() {
        Err(Error::caller_spec(description_refusal(env, description)->0))
    } else if callout.is_some() && callout->0.contains(0u8) {
        Err(Error::caller_spec(ErrorKind::InvalidArgument))
    } else {
        Ok(RequestView::RequestKey { kind, description, callout, destination })
    }
}

/// The serial behind a handle, if there is a handle.
pub open spec fn serial_of(keyring: Option<&Keyring>) -> Option<KeySerial> {
    match keyring {
        Some(k) => Some(k@),
        None => None,
    }
}

/// The bytes of a text, if there is a text.
pub open spec fn bytes_of(text: Option<&str>) -> Option<Seq<u8>> {
    match text {
        Some(t) => Some(t.spec_bytes()),
        None => None,
    }
}

/// What asking to restrict a keyring comes to.
pub open spec fn restrict_outcome(keyring: KeySerial, restriction: AsymmetricRestriction) -> Result<
    RequestView,
    Error,
> {
    match restriction.text() {
        Some(text) => Ok(
            RequestView::Restrict { keyring, kind: KeyKind::Asymmetric, restriction: text },
        ),
        None => Err(Error::caller_spec(ErrorKind::InvalidArgument)),
    }
}

impl Keyring {
    /// The handle to the keyring with the given serial. Nothing is asked
    /// of the kernel.
    pub fn new(serial: KeySerial) -> (keyring: Keyring)
        ensures
            keyring@ == serial,
    {
        Keyring { serial }
    }

    /// The keyring's serial.
    pub fn serial(&self) -> (serial: KeySerial)
        ensures
            serial == self@,
    {
        self.serial
    }

    /// The keyring as a key of the keyring type.
    pub fn as_key(&self) -> (key: Key<crate::keytypes::keyring::Keyring>)
        ensures
            key@ == self@,
    {
        Key::new(self.serial)
    }

    /// The request that resolves a special keyring, which fails where the
    /// caller has none of that sort.
    pub fn attach_request(special: SpecialKeyring) -> (request: Request)
        ensures
            request@ matches RequestView::GetKeyringId { id, create } && id.value()
                == special.serial_value() && !create,
    {
        Request::GetKeyringId { id: special.serial(), create: false }
    }

    /// The request that resolves a special keyring and has the kernel make
    /// it first where the caller has none. The request depends on nothing
    /// but the sort of keyring, so asking twice is asking the same.
    pub fn attach_or_create_request(special: SpecialKeyring) -> (request: Request)
        ensures
            request@ matches RequestView::GetKeyringId { id, create } && id.value()
                == special.serial_value() && create,
    {
        Request::GetKeyringId { id: special.serial(), create: true }
    }

    /// Reads the answer to a request for a special keyring: the handle is
    /// to the serial that the kernel answered with, so two answers give
    /// equal handles exactly where they name the same keyring.
    pub fn attach_reply(reply: Result<i64, i32>) -> (outcome: Result<Keyring, Error>)
        ensures
            match outcome {
                Ok(keyring) => answered_serial(reply) == Ok::<int, Error>(keyring@.value()),
                Err(error) => answered_serial(reply) == Err::<int, Error>(error),
            },
    {
        match serial_of_reply(reply) {
            Ok(serial) => Ok(Keyring { serial }),
            Err(error) => Err(error),
        }
    }

    /// The request that makes a key of type `T` in this keyring, or
    /// updates the key of that type and description if the keyring holds
    /// one. It is refused here, before any system call, where the rules
    /// show that the kernel would refuse it.
    pub fn add_key_request<T: KeyType>(
        &self,
        env: Option<&Environment>,
        description: &str,
        payload: &T::Payload,
    ) -> (request: Result<Request, Error>)
        ensures
            is_outcome(
                request,
                add_key_outcome(
                    known(env),
                    self@,
                    T::kind(),
                    description.spec_bytes(),
                    T::encoded(payload@),
                ),
            ),
    {
        let name = description.as_bytes();
        check_description(env, name)?;
        let bytes = T::encode(payload)?;
        check_add_key(env, T::key_kind(), name, bytes.as_slice())?;
        Ok(
            Request::AddKey {
                kind: T::key_kind(),
                description: to_vec(name),
                payload: bytes,
                keyring: self.serial,
            },
        )
    }

    /// The request that makes a key of the given kind from a payload that
    /// is encoded already. The same rules apply as to `add_key_request`.
    pub fn add_raw_key_request(
        &self,
        env: Option<&Environment>,
        kind: KeyKind,
        description: &str,
        payload: &[u8],
    ) -> (request: Result<Request, Error>)
        ensures
            is_outcome(
                request,
                add_key_outcome(known(env), self@, kind, description.spec_bytes(), Some(payload@)),
            ),
    {
        let name = description.as_bytes();
        check_add_key(env, kind, name, payload)?;
        Ok(
            Request::AddKey {
                kind,
                description: to_vec(name),
                payload: to_vec(payload),
                keyring: self.serial,
            },
        )
    }

    /// Reads the answer to a request that makes or finds a key: the handle
    /// is to the serial that the kernel answered with. An error number
    /// becomes the error of its kind.
    pub fn key_reply<T>(reply: Result<i64, i32>) -> (outcome: Result<Key<T>, Error>)
        ensures
            match outcome {
                Ok(key) => answered_serial(reply) == Ok::<int, Error>(key@.value()),
                Err(error) => answered_serial(reply) == Err::<int, Error>(error),
            },
    {
        match serial_of_reply(reply) {
            Ok(serial) => Ok(Key::new(serial)),
            Err(error) => Err(error),
        }
    }

    /// The request that looks for a key of type `T` and the given
    /// description in this keyring and the keyrings below it. With a
    /// destination, the kernel links the key that it finds there.
    pub fn search_request<T: KeyType>(
        &self,
        env: Option<&Environment>,
        description: &str,
        destination: Option<&Keyring>,
    ) -> (request: Result<Request, Error>)
        ensures
            is_outcome(
                request,
                search_outcome(
                    known(env),
                    self@,
                    T::kind(),
                    description.spec_bytes(),
                    serial_of(destination),
                ),
            ),
    {
        let name = description.as_bytes();
        check_description(env, name)?;
        let destination = match destination {
            Some(d) => Some(d.serial),
            None => None,
        };
        Ok(
            Request::Search {
                keyring: self.serial,
                kind: T::key_kind(),
                description: to_vec(name),
                destination,
            },
        )
    }

    /// The request that asks the kernel for a key of type `T` and the
    /// given description, wherever the caller's keyrings hold it. Where
    /// there is none the kernel may have it made, and hands the callout
    /// text to whoever makes it. With a destination, the key is linked
    /// there.
    pub fn request_key_request<T: KeyType>(
        env: Option<&Environment>,
        description: &str,
        callout: Option<&str>,
        destination: Option<&Keyring>,
    ) -> (request: Result<Request, Error>)
        ensures
            is_outcome(
                request,
                request_key_outcome(
                    known(env),
                    T::kind(),
                    description.spec_bytes(),
                    bytes_of(callout),
                    serial_of(destination),
                ),
            ),
    {
        let name = description.as_bytes();
        check_description(env, name)?;
        let callout = match callout {
            Some(text) => {
                let bytes = text.as_bytes();
                if contains_byte(bytes, 0) {
                    return Err(Error::caller(ErrorKind::InvalidArgument));
                }
                Some(to_vec(bytes))
            },
            None => None,
        };
        let destination = match destination {
            Some(d) => Some(d.serial),
            None => None,
        };
        Ok(
            Request::RequestKey {
                kind: T::key_kind(),
                description: to_vec(name),
                callout,
                destination,
            },
        )
    }

    /// The request that puts a key into this keyring.
    pub fn link_key_request<T>(&self, key: &Key<T>) -> (request: Request)
        ensures
            request@ == (RequestView::Link { key: key@, keyring: self@ }),
    {
        Request::Link { key: key.serial(), keyring: self.serial }
    }

    /// The request that takes a key out of this keyring. It is made for
    /// any key and any keyring: the handle keeps no count of the links to
    /// a key, and whether the key lives on is the kernel's to say.
    pub fn unlink_key_request<T>(&self, key: &Key<T>) -> (request: Request)
        ensures
            request@ == (RequestView::Unlink { key: key@, keyring: self@ }),
    {
        Request::Unlink { key: key.serial(), keyring: self.serial }
    }

    /// The request that puts another keyring into this keyring.
    pub fn link_keyring_request(&self, keyring: &Keyring) -> (request: Request)
        ensures
            request@ == (RequestView::Link { key: keyring@, keyring: self@ }),
    {
        Request::Link { key: keyring.serial, keyring: self.serial }
    }

    /// The request that takes another keyring out of this keyring.
    pub fn unlink_keyring_request(&self, keyring: &Keyring) -> (request: Request)
        ensures
            request@ == (RequestView::Unlink { key: keyring@, keyring: self@ }),
    {
        Request::Unlink { key: keyring.serial, keyring: self.serial }
    }

    /// The request that lets this keyring admit only asymmetric keys that
    /// meet the restriction.
    pub fn restrict_request(&self, restriction: &AsymmetricRestriction) -> (request: Result<
        Request,
        Error,
    >)
        ensures
            is_outcome(request, restrict_outcome(self@, *restriction)),
    {
        let text = restriction.restriction()?;
        Ok(Request::Restrict { keyring: self.serial, kind: KeyKind::Asymmetric, restriction: text })
    }
}

} // verus!
