//! Keys that hold a login secret: the kernel uses it and never hands it back. The description names a service, then a colon, then an identifier.

use vstd::prelude::*;
use crate::error::Error;
use crate::keytype::{KeyKind, KeyType, UpdatableKeyType};
use crate::text::to_vec;

verus! {

/// Keys that hold a login secret: the kernel uses it and never hands it back. The description names a service, then a colon, then an identifier.
#[derive(Clone, Copy, Debug, PartialEq, Eq, Hash)]
pub struct Logon;

impl KeyType for Logon {
    /// The payload is the bytes as they are given.
    type Payload = [u8];

    open spec fn kind() -> KeyKind {
        KeyKind::Logon
    }

    open spec fn encoded(payload: Seq<u8>) -> Option<Seq<u8>> {
        Some(payload)
    }

    fn key_kind() -> (kind: KeyKind) {
        KeyKind::Logon
    }

    fn encode(payload: &[u8]) -> (bytes: Result<Vec<u8>, Error>) {
        Ok(to_vec(payload))
    }
}

impl UpdatableKeyType for Logon {
    /// The new payload is the bytes as they are given.
    type Update = [u8];

    open spec fn update_encoded(update: Seq<u8>) -> Option<Seq<u8>> {
        Some(update)
    }

    proof fn kind_is_updatable() {
    }

    proof fn update_is_accepted(update: Seq<u8>) {
    }

    fn encode_update(update: &[u8]) -> (bytes: Result<Vec<u8>, Error>) {
        Ok(to_vec(update))
    }
}

} // verus!
