//! Keys that hold the public or private half of an asymmetric key pair, and
//! the restrictions by which a keyring admits only keys that another key
//! vouches for.

use vstd::prelude::*;
use vstd::string::*;
use crate::error::{Error, ErrorKind};
use crate::keytype::{KeyKind, KeyType, ReadableKeyType};
use crate::serial::KeySerial;
use crate::text::{ascii_bytes, decimal, push_ascii, push_decimal, to_vec};

verus! {

/// The key type of asymmetric keys. A key is made from its key material, in
/// one of the forms that the kernel's parsers know. Once made it cannot be
/// changed.
#[derive(Clone, Copy, Debug, PartialEq, Eq, Hash)]
pub struct Asymmetric;

impl KeyType for Asymmetric {
    /// The payload is the key material as it is given.
    type Payload = [u8];

    open spec fn kind() -> KeyKind {
        KeyKind::Asymmetric
    }

    open spec fn encoded(payload: Seq<u8>) -> Option<Seq<u8>> {
        Some(payload)
    }

    fn key_kind() -> (kind: KeyKind) {
        KeyKind::Asymmetric
    }

    fn encode(payload: &[u8]) -> (bytes: Result<Vec<u8>, Error>) {
        Ok(to_vec(payload))
    }
}

impl ReadableKeyType for Asymmetric {
    /// What is read is what the kernel gives out of the key.
    type Value = Vec<u8>;

    open spec fn decoded(bytes: Seq<u8>) -> Option<Seq<u8>> {
        Some(bytes)
    }

    proof fn kind_is_readable() {
    }

    fn decode(bytes: &[u8]) -> (value: Result<Vec<u8>, Error>) {
        Ok(to_vec(bytes))
    }
}

/// Who must vouch for a key before a restricted keyring admits it.
#[derive(Clone, Copy, Debug, PartialEq, Eq, Structural, Hash)]
pub enum AsymmetricRestriction {
    /// A key of the kernel's built-in trusted keyring.
    BuiltinTrusted,
    /// A key of the built-in or of the secondary trusted keyring.
    BuiltinAndSecondaryTrusted,
    /// The given key, or a key of the given keyring. With `chained`, a key
    /// that the restricted keyring already holds will do as well.
    Key { serial: KeySerial, chained: bool },
    /// A key that the restricted keyring already holds.
    Chained,
}

impl AsymmetricRestriction {
    /// The restriction in the kernel's grammar, or `None` where it names a
    /// key by a serial that is not the number of a kernel object.
    pub open spec fn text(self) -> Option<Seq<u8>> {
        match self {
            AsymmetricRestriction::BuiltinTrusted => Some(ascii_bytes("builtin_trusted"@)),
            AsymmetricRestriction::BuiltinAndSecondaryTrusted => Some(
                ascii_bytes("builtin_and_secondary_trusted"@),
            ),
            AsymmetricRestriction::Key { serial, chained } => if serial.value() > 0 {
                Some(
                    ascii_bytes("key_or_keyring:"@) + decimal(serial.value() as nat) + if chained {
                        ascii_bytes(":chain"@)
                    } else {
                        Seq::empty()
                    },
                )
            } else {
                None
            },
            AsymmetricRestriction::Chained => Some(ascii_bytes("key_or_keyring:0:chain"@)),
        }
    }

    /// Writes the restriction in the kernel's grammar. One that names a key
    /// by the serial of a special keyring is refused as an invalid
    /// argument: the grammar takes the number of a kernel object only.
    pub fn restriction(&self) -> (text: Result<Vec<u8>, Error>)
        ensures
            match text {
                Ok(t) => self.text() == Some(t@),
                Err(e) => self.text().is_none() && e == Error::caller_spec(
                    ErrorKind::InvalidArgument,
                ),
            },
    {
        let mut out: Vec<u8> = Vec::new();
        match self {
            AsymmetricRestriction::BuiltinTrusted => {
                proof {
                    reveal_strlit("builtin_trusted");
                }
                push_ascii(&mut out, "builtin_trusted");
            },
            AsymmetricRestriction::BuiltinAndSecondaryTrusted => {
                proof {
                    reveal_strlit("builtin_and_secondary_trusted");
                }
                push_ascii(&mut out, "builtin_and_secondary_trusted");
            },
            AsymmetricRestriction::Key { serial, chained } => {
                let raw = serial.get();
                if raw <= 0 {
                    return Err(Error::caller(ErrorKind::InvalidArgument));
                }
                proof {
                    reveal_strlit("key_or_keyring:");
                    reveal_strlit(":chain");
                }
                push_ascii(&mut out, "key_or_keyring:");
                push_decimal(&mut out, raw as u64);
                if *chained {
                    push_ascii(&mut out, ":chain");
                }
                assert(out@ =~= self.text()->0);
            },
            AsymmetricRestriction::Chained => {
                proof {
                    reveal_strlit("key_or_keyring:0:chain");
                }
                push_ascii(&mut out, "key_or_keyring:0:chain");
            },
        }
        Ok(out)
    }
}

} // verus!
