//! Keys whose presence marks a hash as blacklisted. Making the key is the whole operation: it has no payload and takes none later.

use vstd::prelude::*;
use crate::error::Error;
use crate::keytype::{KeyKind, KeyType};

verus! {

/// Keys whose presence marks a hash as blacklisted. Making the key is the whole operation: it has no payload and takes none later.
#[derive(Clone, Copy, Debug, PartialEq, Eq, Hash)]
pub struct Blacklist;

impl KeyType for Blacklist {
    /// There is nothing to give: a key of this type is made without a
    /// payload.
    type Payload = ();

    open spec fn kind() -> KeyKind {
        KeyKind::Blacklist
    }

    open spec fn encoded(payload: ()) -> Option<Seq<u8>> {
        Some(Seq::empty())
    }

    fn key_kind() -> (kind: KeyKind) {
        KeyKind::Blacklist
    }

    fn encode(payload: &()) -> (bytes: Result<Vec<u8>, Error>) {
        Ok(Vec::new())
    }
}

} // verus!
