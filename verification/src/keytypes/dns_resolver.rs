//! Keys that cache the answer to a DNS query. The description names the
//! query; the payload is the answer as text, which may carry an error code
//! as an option behind a `#`. The kernel wants the text closed by a NUL.

use vstd::prelude::*;
use vstd::string::*;
use crate::error::{Error, ErrorKind};
use crate::keytype::{KeyKind, KeyType, ReadableKeyType, UpdatableKeyType};
use crate::text::{ascii_bytes, decimal, contains_byte, push_ascii, push_bytes, push_decimal, to_vec};

verus! {

/// An entry of the cache.
#[derive(Clone, Debug, PartialEq, Eq, Hash)]
pub struct DnsEntry {
    /// The answer to the query.
    pub result: Vec<u8>,
    /// The error that the lookup ended in, if it failed.
    pub error: Option<u32>,
}

/// An entry of the cache, as plain values.
pub struct DnsEntryView {
    pub result: Seq<u8>,
    pub error: Option<u32>,
}

impl View for DnsEntry {
    type V = DnsEntryView;

    open spec fn view(&self) -> DnsEntryView {
        DnsEntryView { result: self.result@, error: self.error }
    }
}

/// Whether `result` can stand as the answer of an entry: it is not empty
/// and holds neither a `#`, which opens the options, nor a NUL, which
/// closes the text.
pub open spec fn is_result(result: Seq<u8>) -> bool {
    result.len() > 0 && !result.contains(0x23u8) && !result.contains(0u8)
}

/// The text of an entry: the answer, the error as an option where there is
/// one, and the closing NUL.
pub open spec fn entry_text(entry: DnsEntryView) -> Seq<u8> {
    let option = match entry.error {
        Some(code) => ascii_bytes("#dnserror="@) + decimal(code as nat),
        None => Seq::empty(),
    };
    (entry.result + option).push(0u8)
}

/// The key type of DNS resolver keys.
#[derive(Clone, Copy, Debug, PartialEq, Eq, Hash)]
pub struct DnsResolver;

impl KeyType for DnsResolver {
    type Payload = DnsEntry;

    open spec fn kind() -> KeyKind {
        KeyKind::DnsResolver
    }

    open spec fn encoded(payload: DnsEntryView) -> Option<Seq<u8>> {
        if is_result(payload.result) {
            Some(entry_text(payload))
        } else {
            None
        }
    }

    fn key_kind() -> (kind: KeyKind) {
        KeyKind::DnsResolver
    }

    fn encode(payload: &DnsEntry) -> (bytes: Result<Vec<u8>, Error>) {
        let result = payload.result.as_slice();
        if result.len() == 0 || contains_byte(result, 0x23) || contains_byte(result, 0) {
            return Err(Error::caller(ErrorKind::InvalidArgument));
        }
        let mut out: Vec<u8> = Vec::new();
        push_bytes(&mut out, result);
        if let Some(code) = payload.error {
            proof {
                reveal_strlit("#dnserror=");
            }
            push_ascii(&mut out, "#dnserror=");
            push_decimal(&mut out, code as u64);
        }
        out.push(0);
        assert(out@ =~= entry_text(payload@));
        Ok(out)
    }
}

impl ReadableKeyType for DnsResolver {
    /// What is read is the answer that the key caches.
    type Value = Vec<u8>;

    open spec fn decoded(bytes: Seq<u8>) -> Option<Seq<u8>> {
        Some(bytes)
    }

    proof fn kind_is_readable() {
    }

    fn decode(bytes: &[u8]) -> (value: Result<Vec<u8>, Error>) {
        Ok(to_vec(bytes))
    }
}

impl UpdatableKeyType for DnsResolver {
    /// The new payload is the bytes as they are given.
    type Update = [u8];

    open spec fn update_encoded(update: Seq<u8>) -> Option<Seq<u8>> {
        Some(update)
    }

    proof fn kind_is_updatable() {
    }

    proof fn update_is_accepted(update: Seq<u8>) {
    }

    fn encode_update(update: &[u8]) -> (bytes: Result<Vec<u8>, Error>) {
        Ok(to_vec(update))
    }
}

} // verus!
