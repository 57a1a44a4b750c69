//! Keys that hold other keys. A keyring has no payload of its own: the kernel keeps the list of its members.

use vstd::prelude::*;
use crate::error::Error;
use crate::keytype::{KeyKind, KeyType};

verus! {

/// Keys that hold other keys. A keyring has no payload of its own: the kernel keeps the list of its members.
#[derive(Clone, Copy, Debug, PartialEq, Eq, Hash)]
pub struct Keyring;

impl KeyType for Keyring {
    /// There is nothing to give: a key of this type is made without a
    /// payload.
    type Payload = ();

    open spec fn kind() -> KeyKind {
        KeyKind::Keyring
    }

    open spec fn encoded(payload: ()) -> Option<Seq<u8>> {
        Some(Seq::empty())
    }

    fn key_kind() -> (kind: KeyKind) {
        KeyKind::Keyring
    }

    fn encode(payload: &()) -> (bytes: Result<Vec<u8>, Error>) {
        Ok(Vec::new())
    }
}

} // verus!
