//! The key types of the kernel: their names, what each allows, and the
//! interface that a key type offers to the operations on keys.

use vstd::prelude::*;
use vstd::string::*;
use crate::error::Error;
use crate::error::ErrorKind;
use crate::error::ErrorSource;
use crate::rules::update_accepted;
use crate::text::{ascii_bytes, equals_ascii};

verus! {

/// The key types that this crate knows.
#[derive(Clone, Copy, Debug, PartialEq, Eq, Structural, Hash)]
pub enum KeyKind {
    User,
    Logon,
    BigKey,
    Keyring,
    Encrypted,
    Asymmetric,
    Trusted,
    DnsResolver,
    Blacklist,
    RxRpc,
    RxRpcServer,
}

/// How a key of some type takes a new payload.
#[derive(Clone, Copy, Debug, PartialEq, Eq, Structural, Hash)]
pub enum UpdateShape {
    /// The type has no update: a key of it keeps what it was made with.
    Unsupported,
    /// Any bytes are taken as the new payload.
    Raw,
    /// Only a command of the type's own grammar is taken.
    Structured,
}

impl KeyKind {
    /// The name by which the kernel selects the handler of the type.
    pub open spec fn name_spec(self) -> Seq<char> {
        match self {
            KeyKind::User => "user"@,
            KeyKind::Logon => "logon"@,
            KeyKind::BigKey => "big_key"@,
            KeyKind::Keyring => "keyring"@,
            KeyKind::Encrypted => "encrypted"@,
            KeyKind::Asymmetric => "asymmetric"@,
            KeyKind::Trusted => "trusted"@,
            KeyKind::DnsResolver => "dns_resolver"@,
            KeyKind::Blacklist => "blacklist"@,
            KeyKind::RxRpc => "rxrpc"@,
            KeyKind::RxRpcServer => "rxrpc_s"@,
        }
    }

    /// The name as the bytes that are handed to the kernel.
    pub open spec fn name_bytes(self) -> Seq<u8> {
        ascii_bytes(self.name_spec())
    }

    /// Whether a key of the type is made with a payload. A keyring and a
    /// blacklist entry are made with none.
    pub open spec fn takes_payload(self) -> bool {
        self != KeyKind::Keyring && self != KeyKind::Blacklist
    }

    /// Whether a payload of the type has to fit in a page. Only `big_key`
    /// is free of that.
    pub open spec fn page_bounded(self) -> bool {
        self != KeyKind::BigKey
    }

    /// Whether the payload of a key of the type can be read back.
    pub open spec fn readable(self) -> bool {
        match self {
            KeyKind::User => true,
            KeyKind::BigKey => true,
            KeyKind::Encrypted => true,
            KeyKind::Asymmetric => true,
            KeyKind::Trusted => true,
            KeyKind::DnsResolver => true,
            KeyKind::RxRpc => true,
            KeyKind::Logon => false,
            KeyKind::Keyring => false,
            KeyKind::Blacklist => false,
            KeyKind::RxRpcServer => false,
        }
    }

    /// How a key of the type takes a new payload.
    pub open spec fn update_shape(self) -> UpdateShape {
        match self {
            KeyKind::User => UpdateShape::Raw,
            KeyKind::Logon => UpdateShape::Raw,
            KeyKind::BigKey => UpdateShape::Raw,
            KeyKind::DnsResolver => UpdateShape::Raw,
            KeyKind::RxRpc => UpdateShape::Raw,
            KeyKind::RxRpcServer => UpdateShape::Raw,
            KeyKind::Encrypted => UpdateShape::Structured,
            KeyKind::Trusted => UpdateShape::Structured,
            KeyKind::Keyring => UpdateShape::Unsupported,
            KeyKind::Asymmetric => UpdateShape::Unsupported,
            KeyKind::Blacklist => UpdateShape::Unsupported,
        }
    }

    /// The key type with the given name, if there is one.
    pub open spec fn named(name: Seq<u8>) -> Option<KeyKind> {
        if name == KeyKind::User.name_bytes() {
            Some(KeyKind::User)
        } else if name == KeyKind::Logon.name_bytes() {
            Some(KeyKind::Logon)
        } else if name == KeyKind::BigKey.name_bytes() {
            Some(KeyKind::BigKey)
        } else if name == KeyKind::Keyring.name_bytes() {
            Some(KeyKind::Keyring)
        } else if name == KeyKind::Encrypted.name_bytes() {
            Some(KeyKind::Encrypted)
        } else if name == KeyKind::Asymmetric.name_bytes() {
            Some(KeyKind::Asymmetric)
        } else if name == KeyKind::Trusted.name_bytes() {
            Some(KeyKind::Trusted)
        } else if name == KeyKind::DnsResolver.name_bytes() {
            Some(KeyKind::DnsResolver)
        } else if name == KeyKind::Blacklist.name_bytes() {
            Some(KeyKind::Blacklist)
        } else if name == KeyKind::RxRpc.name_bytes() {
            Some(KeyKind::RxRpc)
        } else if name == KeyKind::RxRpcServer.name_bytes() {
            Some(KeyKind::RxRpcServer)
        } else {
            None
        }
    }

    /// The name by which the kernel selects the handler of the type.
    pub fn name(self) -> (name: &'static str)
        ensures
            name@ == self.name_spec(),
            name.is_ascii(),
    {
        proof {
            reveal_names();
        }
        match self {
            KeyKind::User => "user",
            KeyKind::Logon => "logon",
            KeyKind::BigKey => "big_key",
            KeyKind::Keyring => "keyring",
            KeyKind::Encrypted => "encrypted",
            KeyKind::Asymmetric => "asymmetric",
            KeyKind::Trusted => "trusted",
            KeyKind::DnsResolver => "dns_resolver",
            KeyKind::Blacklist => "blacklist",
            KeyKind::RxRpc => "rxrpc",
            KeyKind::RxRpcServer => "rxrpc_s",
        }
    }

    /// The name as the bytes that are handed to the kernel.
    pub fn name_vec(self) -> (name: Vec<u8>)
        ensures
            name@ == self.name_bytes(),
    {
        broadcast use is_ascii_spec_bytes;

        let name = self.name().as_bytes_vec();
        assert(name@ =~= self.name_bytes());
        name
    }

    /// The key type with the given name, if there is one.
    pub fn from_name(name: &[u8]) -> (kind: Option<KeyKind>)
        ensures
            kind == Self::named(name@),
    {
        if equals_ascii(name, KeyKind::User.name()) {
            Some(KeyKind::User)
        } else if equals_ascii(name, KeyKind::Logon.name()) {
            Some(KeyKind::Logon)
        } else if equals_ascii(name, KeyKind::BigKey.name()) {
            Some(KeyKind::BigKey)
        } else if equals_ascii(name, KeyKind::Keyring.name()) {
            Some(KeyKind::Keyring)
        } else if equals_ascii(name, KeyKind::Encrypted.name()) {
            Some(KeyKind::Encrypted)
        } else if equals_ascii(name, KeyKind::Asymmetric.name()) {
            Some(KeyKind::Asymmetric)
        } else if equals_ascii(name, KeyKind::Trusted.name()) {
            Some(KeyKind::Trusted)
        } else if equals_ascii(name, KeyKind::DnsResolver.name()) {
            Some(KeyKind::DnsResolver)
        } else if equals_ascii(name, KeyKind::Blacklist.name()) {
            Some(KeyKind::Blacklist)
        } else if equals_ascii(name, KeyKind::RxRpc.name()) {
            Some(KeyKind::RxRpc)
        } else if equals_ascii(name, KeyKind::RxRpcServer.name()) {
            Some(KeyKind::RxRpcServer)
        } else {
            None
        }
    }

    /// Whether a key of the type is made with a payload.
    pub fn has_payload(self) -> (takes: bool)
        ensures
            takes == self.takes_payload(),
    {
        match self {
            KeyKind::Keyring => false,
            KeyKind::Blacklist => false,
            _ => true,
        }
    }

    /// Whether a payload of the type has to fit in a page.
    pub fn is_page_bounded(self) -> (bounded: bool)
        ensures
            bounded == self.page_bounded(),
    {
        match self {
            KeyKind::BigKey => false,
            _ => true,
        }
    }

    /// Whether the payload of a key of the type can be read back.
    pub fn is_readable(self) -> (readable: bool)
        ensures
            readable == self.readable(),
    {
        match self {
            KeyKind::User => true,
            KeyKind::BigKey => true,
            KeyKind::Encrypted => true,
            KeyKind::Asymmetric => true,
            KeyKind::Trusted => true,
            KeyKind::DnsResolver => true,
            KeyKind::RxRpc => true,
            _ => false,
        }
    }

    /// How a key of the type takes a new payload.
    pub fn update(self) -> (shape: UpdateShape)
        ensures
            shape == self.update_shape(),
    {
        match self {
            KeyKind::Encrypted => UpdateShape::Structured,
            KeyKind::Trusted => UpdateShape::Structured,
            KeyKind::Keyring => UpdateShape::Unsupported,
            KeyKind::Asymmetric => UpdateShape::Unsupported,
            KeyKind::Blacklist => UpdateShape::Unsupported,
            _ => UpdateShape::Raw,
        }
    }
}

/// Makes the characters of every type name known to the solver.
proof fn reveal_names()
    ensures
        "user"@ == seq!['u', 's', 'e', 'r'],
        "logon"@ == seq!['l', 'o', 'g', 'o', 'n'],
        "big_key"@ == seq!['b', 'i', 'g', '_', 'k', 'e', 'y'],
        "keyring"@ == seq!['k', 'e', 'y', 'r', 'i', 'n', 'g'],
        "encrypted"@ == seq!['e', 'n', 'c', 'r', 'y', 'p', 't', 'e', 'd'],
        "asymmetric"@ == seq!['a', 's', 'y', 'm', 'm', 'e', 't', 'r', 'i', 'c'],
        "trusted"@ == seq!['t', 'r', 'u', 's', 't', 'e', 'd'],
        "dns_resolver"@ == seq!['d', 'n', 's', '_', 'r', 'e', 's', 'o', 'l', 'v', 'e', 'r'],
        "blacklist"@ == seq!['b', 'l', 'a', 'c', 'k', 'l', 'i', 's', 't'],
        "rxrpc"@ == seq!['r', 'x', 'r', 'p', 'c'],
        "rxrpc_s"@ == seq!['r', 'x', 'r', 'p', 'c', '_', 's'],
{
    reveal_strlit("user");
    reveal_strlit("logon");
    reveal_strlit("big_key");
    reveal_strlit("keyring");
    reveal_strlit("encrypted");
    reveal_strlit("asymmetric");
    reveal_strlit("trusted");
    reveal_strlit("dns_resolver");
    reveal_strlit("blacklist");
    reveal_strlit("rxrpc");
    reveal_strlit("rxrpc_s");
    assert("user"@ =~= seq!['u', 's', 'e', 'r']);
    assert("logon"@ =~= seq!['l', 'o', 'g', 'o', 'n']);
    assert("big_key"@ =~= seq!['b', 'i', 'g', '_', 'k', 'e', 'y']);
    assert("keyring"@ =~= seq!['k', 'e', 'y', 'r', 'i', 'n', 'g']);
    assert("encrypted"@ =~= seq!['e', 'n', 'c', 'r', 'y', 'p', 't', 'e', 'd']);
    assert("asymmetric"@ =~= seq!['a', 's', 'y', 'm', 'm', 'e', 't', 'r', 'i', 'c']);
    assert("trusted"@ =~= seq!['t', 'r', 'u', 's', 't', 'e', 'd']);
    assert("dns_resolver"@ =~= seq!['d', 'n', 's', '_', 'r', 'e', 's', 'o', 'l', 'v', 'e', 'r']);
    assert("blacklist"@ =~= seq!['b', 'l', 'a', 'c', 'k', 'l', 'i', 's', 't']);
    assert("rxrpc"@ =~= seq!['r', 'x', 'r', 'p', 'c']);
    assert("rxrpc_s"@ =~= seq!['r', 'x', 'r', 'p', 'c', '_', 's']);
}

/// Every name is one that the kernel takes for a type name: it is not
/// empty, shorter than 32 bytes, holds no NUL and does not start with a dot.
pub proof fn lemma_names_are_well_formed(kind: KeyKind)
    ensures
        0 < kind.name_bytes().len() < 32,
        kind.name_bytes()[0] != 0x2e,
        !kind.name_bytes().contains(0u8),
{
    reveal_names();
    let name = kind.name_bytes();
    assert forall|i: int| 0 <= i < name.len() implies name[i] != 0u8 by {
        assert(name[i] == kind.name_spec()[i] as u8);
    }
}

/// No two key types share a name, so a name leads back to its type.
pub proof fn lemma_names_are_distinct(a: KeyKind, b: KeyKind)
    ensures
        a.name_bytes() == b.name_bytes() ==> a == b,
        KeyKind::named(a.name_bytes()) == Some(a),
{
    lemma_name_marks(a);
    lemma_name_marks(b);
    lemma_name_marks(KeyKind::User);
    lemma_name_marks(KeyKind::Logon);
    lemma_name_marks(KeyKind::BigKey);
    lemma_name_marks(KeyKind::Keyring);
    lemma_name_marks(KeyKind::Encrypted);
    lemma_name_marks(KeyKind::Asymmetric);
    lemma_name_marks(KeyKind::Trusted);
    lemma_name_marks(KeyKind::DnsResolver);
    lemma_name_marks(KeyKind::Blacklist);
    lemma_name_marks(KeyKind::RxRpc);
    lemma_name_marks(KeyKind::RxRpcServer);
}

/// The length and the first letter of each name: together they tell the
/// names apart.
proof fn lemma_name_marks(kind: KeyKind)
    ensures
        kind.name_bytes().len() == match kind {
            KeyKind::User => 4nat,
            KeyKind::Logon => 5,
            KeyKind::BigKey => 7,
            KeyKind::Keyring => 7,
            KeyKind::Encrypted => 9,
            KeyKind::Asymmetric => 10,
            KeyKind::Trusted => 7,
            KeyKind::DnsResolver => 12,
            KeyKind::Blacklist => 9,
            KeyKind::RxRpc => 5,
            KeyKind::RxRpcServer => 7,
        },
        kind.name_bytes()[0] == match kind {
            KeyKind::User => 0x75u8,
            KeyKind::Logon => 0x6c,
            KeyKind::BigKey => 0x62,
            KeyKind::Keyring => 0x6b,
            KeyKind::Encrypted => 0x65,
            KeyKind::Asymmetric => 0x61,
            KeyKind::Trusted => 0x74,
            KeyKind::DnsResolver => 0x64,
            KeyKind::Blacklist => 0x62,
            KeyKind::RxRpc => 0x72,
            KeyKind::RxRpcServer => 0x72,
        },
{
    reveal_names();
}

/// What a key type offers to the operations on keys: its place among the
/// kinds, and the bytes that stand for a payload when a key is made.
pub trait KeyType {
    /// The value from which a key of this type is made.
    type Payload: View + ?Sized;

    /// The kind that this type is.
    spec fn kind() -> KeyKind;

    /// The bytes that stand for a payload when a key is made, or `None`
    /// where the value cannot make a key.
    spec fn encoded(payload: <Self::Payload as View>::V) -> Option<Seq<u8>>;

    /// The kind that this type is.
    fn key_kind() -> (kind: KeyKind)
        ensures
            kind == Self::kind(),
    ;

    /// The name by which the kernel selects the handler of this type.
    fn name() -> (name: &'static str)
        ensures
            name@ == Self::kind().name_spec(),
            name.is_ascii(),
    {
        Self::key_kind().name()
    }

    /// Encodes a payload for the making of a key. A value that cannot make a
    /// key is refused as an invalid argument, before any system call.
    fn encode(payload: &Self::Payload) -> (bytes: Result<Vec<u8>, Error>)
        ensures
            match bytes {
                Ok(b) => Self::encoded(payload@) == Some(b@),
                Err(e) => Self::encoded(payload@).is_none() && e == Error::caller_spec(
                    ErrorKind::InvalidArgument,
                ),
            },
    ;
}

/// A key type whose keys take a new payload. What a key takes once it is
/// made may be of another shape than what it is made from.
pub trait UpdatableKeyType: KeyType {
    /// The value that gives a key of this type its new payload.
    type Update: View + ?Sized;

    /// The bytes that stand for a new payload, or `None` where the value
    /// cannot be given to a key.
    spec fn update_encoded(update: <Self::Update as View>::V) -> Option<Seq<u8>>;

    /// The kind is one of those that can be updated.
    proof fn kind_is_updatable()
        ensures
            Self::kind().update_shape() != UpdateShape::Unsupported,
    ;

    /// Whatever this type encodes as a new payload is a payload that a key
    /// of its kind takes.
    proof fn update_is_accepted(update: <Self::Update as View>::V)
        ensures
            Self::update_encoded(update) matches Some(bytes) ==> update_accepted(
                Self::kind(),
                bytes,
            ),
    ;

    /// Encodes a new payload. A value that cannot be given to a key is
    /// refused as an invalid argument, before any system call.
    fn encode_update(update: &Self::Update) -> (bytes: Result<Vec<u8>, Error>)
        ensures
            match bytes {
                Ok(b) => Self::update_encoded(update@) == Some(b@),
                Err(e) => Self::update_encoded(update@).is_none() && e == Error::caller_spec(
                    ErrorKind::InvalidArgument,
                ),
            },
    ;
}

/// A key type whose payload can be read back.
pub trait ReadableKeyType: KeyType {
    /// What the bytes read from a key of this type stand for.
    type Value: View;

    /// The value that bytes read from a key stand for, or `None` where they
    /// stand for none.
    spec fn decoded(bytes: Seq<u8>) -> Option<<Self::Value as View>::V>;

    /// The kind is one of those that can be read.
    proof fn kind_is_readable()
        ensures
            Self::kind().readable(),
    ;

    /// Decodes the bytes read from a key. Bytes that stand for no value are
    /// an invalid answer of the kernel.
    fn decode(bytes: &[u8]) -> (value: Result<Self::Value, Error>)
        ensures
            match value {
                Ok(v) => Self::decoded(bytes@) == Some(v@),
                Err(e) => Self::decoded(bytes@).is_none() && e == (Error {
                    source: ErrorSource::Kernel,
                    kind: ErrorKind::InvalidArgument,
                }),
            },
    ;
}

} // verus!
