//! Keys that hold a large secret, which the kernel may keep outside its own memory. The payload need not fit in a page.

use vstd::prelude::*;
use crate::error::Error;
use crate::keytype::{KeyKind, KeyType, ReadableKeyType, UpdatableKeyType};
use crate::text::to_vec;

verus! {

/// Keys that hold a large secret, which the kernel may keep outside its own memory. The payload need not fit in a page.
#[derive(Clone, Copy, Debug, PartialEq, Eq, Hash)]
pub struct BigKey;

impl KeyType for BigKey {
    /// The payload is the bytes as they are given.
    type Payload = [u8];

    open spec fn kind() -> KeyKind {
        KeyKind::BigKey
    }

    open spec fn encoded(payload: Seq<u8>) -> Option<Seq<u8>> {
        Some(payload)
    }

    fn key_kind() -> (kind: KeyKind) {
        KeyKind::BigKey
    }

    fn encode(payload: &[u8]) -> (bytes: Result<Vec<u8>, Error>) {
        Ok(to_vec(payload))
    }
}

impl ReadableKeyType for BigKey {
    /// What is read is the payload as it was stored.
    type Value = Vec<u8>;

    open spec fn decoded(bytes: Seq<u8>) -> Option<Seq<u8>> {
        Some(bytes)
    }

    proof fn kind_is_readable() {
    }

    fn decode(bytes: &[u8]) -> (value: Result<Vec<u8>, Error>) {
        Ok(to_vec(bytes))
    }
}

impl UpdatableKeyType for BigKey {
    /// The new payload is the bytes as they are given.
    type Update = [u8];

    open spec fn update_encoded(update: Seq<u8>) -> Option<Seq<u8>> {
        Some(update)
    }

    proof fn kind_is_updatable() {
    }

    proof fn update_is_accepted(update: Seq<u8>) {
    }

    fn encode_update(update: &[u8]) -> (bytes: Result<Vec<u8>, Error>) {
        Ok(to_vec(update))
    }
}

} // verus!
