//! Keys that hold the secret of an RxRPC server. The kernel lets only a privileged caller make one.

use vstd::prelude::*;
use crate::error::Error;
use crate::keytype::{KeyKind, KeyType, UpdatableKeyType};
use crate::text::to_vec;

verus! {

/// Keys that hold the secret of an RxRPC server. The kernel lets only a privileged caller make one.
#[derive(Clone, Copy, Debug, PartialEq, Eq, Hash)]
pub struct RxRpcServer;

impl KeyType for RxRpcServer {
    /// The payload is the bytes as they are given.
    type Payload = [u8];

    open spec fn kind() -> KeyKind {
        KeyKind::RxRpcServer
    }

    open spec fn encoded(payload: Seq<u8>) -> Option<Seq<u8>> {
        Some(payload)
    }

    fn key_kind() -> (kind: KeyKind) {
        KeyKind::RxRpcServer
    }

    fn encode(payload: &[u8]) -> (bytes: Result<Vec<u8>, Error>) {
        Ok(to_vec(payload))
    }
}

impl UpdatableKeyType for RxRpcServer {
    /// The new payload is the bytes as they are given.
    type Update = [u8];

    open spec fn update_encoded(update: Seq<u8>) -> Option<Seq<u8>> {
        Some(update)
    }

    proof fn kind_is_updatable() {
    }

    proof fn update_is_accepted(update: Seq<u8>) {
    }

    fn encode_update(update: &[u8]) -> (bytes: Result<Vec<u8>, Error>) {
        Ok(to_vec(update))
    }
}

} // verus!
