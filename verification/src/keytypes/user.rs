//! Keys that hold a secret of the user's own, which the kernel stores and hands back as it is.

use vstd::prelude::*;
use crate::error::Error;
use crate::keytype::{KeyKind, KeyType, ReadableKeyType, UpdatableKeyType};
use crate::text::to_vec;

verus! {

/// Keys that hold a secret of the user's own, which the kernel stores and hands back as it is.
#[derive(Clone, Copy, Debug, PartialEq, Eq, Hash)]
pub struct User;

impl KeyType for User {
    /// The payload is the bytes as they are given.
    type Payload = [u8];

    open spec fn kind() -> KeyKind {
        KeyKind::User
    }

    open spec fn encoded(payload: Seq<u8>) -> Option<Seq<u8>> {
        Some(payload)
    }

    fn key_kind() -> (kind: KeyKind) {
        KeyKind::User
    }

    fn encode(payload: &[u8]) -> (bytes: Result<Vec<u8>, Error>) {
        Ok(to_vec(payload))
    }
}

impl ReadableKeyType for User {
    /// What is read is the payload as it was stored.
    type Value = Vec<u8>;

    open spec fn decoded(bytes: Seq<u8>) -> Option<Seq<u8>> {
        Some(bytes)
    }

    proof fn kind_is_readable() {
    }

    fn decode(bytes: &[u8]) -> (value: Result<Vec<u8>, Error>) {
        Ok(to_vec(bytes))
    }
}

impl UpdatableKeyType for User {
    /// The new payload is the bytes as they are given.
    type Update = [u8];

    open spec fn update_encoded(update: Seq<u8>) -> Option<Seq<u8>> {
        Some(update)
    }

    proof fn kind_is_updatable() {
    }

    proof fn update_is_accepted(update: Seq<u8>) {
    }

    fn encode_update(update: &[u8]) -> (bytes: Result<Vec<u8>, Error>) {
        Ok(to_vec(update))
    }
}

} // verus!
