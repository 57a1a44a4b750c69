//! Keys whose secret the kernel generates and keeps encrypted under another
//! key, the master key. A key is made by a command in text; what is read
//! from it is a blob that only a later `load` command can use.

use vstd::prelude::*;
use vstd::string::*;
use vstd::utf8::encode_utf8;
use crate::error::{Error, ErrorKind};
use crate::keytype::{KeyKind, KeyType, ReadableKeyType, UpdatableKeyType};
use crate::text::{ascii_bytes, decimal, has_prefix, is_token};
use crate::text::{check_token, copy_range, push_ascii, push_bytes, push_decimal, starts_with, to_vec};

verus! {

/// The layout of the encrypted data.
#[derive(Clone, Copy, Debug, PartialEq, Eq, Structural, Hash)]
pub enum Format {
    /// The kernel's own layout.
    Default,
    /// The layout that eCryptfs expects.
    Ecryptfs,
    /// A layout for 32-byte keys.
    Enc32,
}

/// The type of the master key.
#[derive(Clone, Copy, Debug, PartialEq, Eq, Structural, Hash)]
pub enum MasterKeyType {
    /// A trusted key, sealed by the TPM.
    Trusted,
    /// A user key.
    User,
}

impl Format {
    /// The word for the layout in a command.
    pub open spec fn name_spec(self) -> Seq<char> {
        match self {
            Format::Default => "default"@,
            Format::Ecryptfs => "ecryptfs"@,
            Format::Enc32 => "enc32"@,
        }
    }

    /// The word for the layout in a command.
    pub fn name(self) -> (name: &'static str)
        ensures
            name@ == self.name_spec(),
            name.is_ascii(),
    {
        proof {
            reveal_strlit("default");
            reveal_strlit("ecryptfs");
            reveal_strlit("enc32");
        }
        match self {
            Format::Default => "default",
            Format::Ecryptfs => "ecryptfs",
            Format::Enc32 => "enc32",
        }
    }
}

impl Default for Format {
    fn default() -> (format: Format)
        ensures
            format == Format::Default,
    {
        Format::Default
    }
}

impl MasterKeyType {
    /// The word for the type in a command.
    pub open spec fn name_spec(self) -> Seq<char> {
        match self {
            MasterKeyType::Trusted => "trusted"@,
            MasterKeyType::User => "user"@,
        }
    }

    /// What stands before the master key's description in a command: the
    /// type's word and a colon.
    pub open spec fn prefix(self) -> Seq<u8> {
        ascii_bytes(self.name_spec()).push(0x3a)
    }

    /// The word for the type in a command.
    pub fn name(self) -> (name: &'static str)
        ensures
            name@ == self.name_spec(),
            name.is_ascii(),
    {
        proof {
            reveal_strlit("trusted");
            reveal_strlit("user");
        }
        match self {
            MasterKeyType::Trusted => "trusted",
            MasterKeyType::User => "user",
        }
    }
}

/// The command that makes a new key of `keylen` random bytes, encrypted
/// under the master key of the given type and description.
pub open spec fn new_command(
    format: Option<Format>,
    keytype: MasterKeyType,
    description: Seq<u8>,
    keylen: u32,
) -> Seq<u8> {
    let layout = match format {
        Some(f) => ascii_bytes(f.name_spec()).push(0x20),
        None => Seq::empty(),
    };
    ascii_bytes("new "@) + layout + keytype.prefix() + description + seq![0x20u8] + decimal(
        keylen as nat,
    )
}

/// The command that puts a key under another master key.
pub open spec fn update_command(keytype: MasterKeyType, description: Seq<u8>) -> Seq<u8> {
    ascii_bytes("update "@) + keytype.prefix() + description
}

/// The command that makes a key from a blob that was read from one. The
/// blob follows the keyword as it is, byte for byte.
pub open spec fn load_command(blob: Seq<u8>) -> Seq<u8> {
    ascii_bytes("load "@) + blob
}

/// A request to the handler of encrypted keys.
#[derive(Clone, Debug, PartialEq, Eq, Hash)]
pub enum Payload {
    /// Make a new key.
    New {
        /// The layout of the encrypted data; the kernel's own where none is
        /// given.
        format: Option<Format>,
        /// The type of the master key.
        keytype: MasterKeyType,
        /// The description of the master key.
        description: String,
        /// The length of the new key in bytes.
        keylen: u32,
    },
    /// Put the key under another master key.
    Update {
        /// The type of the new master key.
        keytype: MasterKeyType,
        /// The description of the new master key.
        description: String,
    },
    /// Make a key from a blob that was read from an encrypted key.
    Load {
        /// The blob, as it was read.
        blob: Vec<u8>,
    },
}

/// A request to the handler of encrypted keys, as plain values.
pub enum PayloadView {
    New { format: Option<Format>, keytype: MasterKeyType, description: Seq<u8>, keylen: u32 },
    Update { keytype: MasterKeyType, description: Seq<u8> },
    Load { blob: Seq<u8> },
}

impl View for Payload {
    type V = PayloadView;

    open spec fn view(&self) -> PayloadView {
        match self {
            Payload::New { format, keytype, description, keylen } => PayloadView::New {
                format: *format,
                keytype: *keytype,
                description: encode_utf8(description@),
                keylen: *keylen,
            },
            Payload::Update { keytype, description } => PayloadView::Update {
                keytype: *keytype,
                description: encode_utf8(description@),
            },
            Payload::Load { blob } => PayloadView::Load { blob: blob@ },
        }
    }
}

impl PayloadView {
    /// The command that states the request, or `None` where the master
    /// key's description cannot stand in a command.
    pub open spec fn command(self) -> Option<Seq<u8>> {
        match self {
            PayloadView::New { format, keytype, description, keylen } => if is_token(description) {
                Some(new_command(format, keytype, description, keylen))
            } else {
                None
            },
            PayloadView::Update { keytype, description } => if is_token(description) {
                Some(update_command(keytype, description))
            } else {
                None
            },
            PayloadView::Load { blob } => Some(load_command(blob)),
        }
    }
}

fn push_master(out: &mut Vec<u8>, keytype: MasterKeyType, description: &[u8])
    ensures
        final(out)@ == old(out)@ + keytype.prefix() + description@,
{
    push_ascii(out, keytype.name());
    out.push(0x3a);
    push_bytes(out, description);
    assert(out@ =~= old(out)@ + keytype.prefix() + description@);
}

impl Payload {
    /// The command that states the request. A master key's description
    /// that cannot stand in a command is refused as an invalid argument.
    pub fn command(&self) -> (bytes: Result<Vec<u8>, Error>)
        ensures
            match bytes {
                Ok(b) => self@.command() == Some(b@),
                Err(e) => self@.command().is_none() && e == Error::caller_spec(
                    ErrorKind::InvalidArgument,
                ),
            },
    {
        let mut out: Vec<u8> = Vec::new();
        match self {
            Payload::New { format, keytype, description, keylen } => {
                let master = description.as_str().as_bytes();
                if !check_token(master) {
                    return Err(Error::caller(ErrorKind::InvalidArgument));
                }
                proof {
                    reveal_strlit("new ");
                }
                push_ascii(&mut out, "new ");
                if let Some(f) = format {
                    push_ascii(&mut out, f.name());
                    out.push(0x20);
                }
                push_master(&mut out, *keytype, master);
                out.push(0x20);
                push_decimal(&mut out, *keylen as u64);
                assert(out@ =~= new_command(*format, *keytype, master@, *keylen));
            },
            Payload::Update { keytype, description } => {
                let master = description.as_str().as_bytes();
                if !check_token(master) {
                    return Err(Error::caller(ErrorKind::InvalidArgument));
                }
                proof {
                    reveal_strlit("update ");
                }
                push_ascii(&mut out, "update ");
                push_master(&mut out, *keytype, master);
                assert(out@ =~= update_command(*keytype, master@));
            },
            Payload::Load { blob } => {
                proof {
                    reveal_strlit("load ");
                }
                push_ascii(&mut out, "load ");
                push_bytes(&mut out, blob.as_slice());
            },
        }
        Ok(out)
    }
}

/// The master key that `bytes` names as a type, a colon and a description,
/// or `None` where `bytes` is not of that form.
pub open spec fn parsed_master(bytes: Seq<u8>) -> Option<(MasterKeyType, Seq<u8>)> {
    let trusted = MasterKeyType::Trusted.prefix();
    let user = MasterKeyType::User.prefix();
    if has_prefix(bytes, trusted) && is_token(bytes.skip(trusted.len() as int)) {
        Some((MasterKeyType::Trusted, bytes.skip(trusted.len() as int)))
    } else if has_prefix(bytes, user) && is_token(bytes.skip(user.len() as int)) {
        Some((MasterKeyType::User, bytes.skip(user.len() as int)))
    } else {
        None
    }
}

/// The new master key that an update command names, or `None` where
/// `bytes` is no update command.
pub open spec fn parsed_update(bytes: Seq<u8>) -> Option<(MasterKeyType, Seq<u8>)> {
    let keyword = ascii_bytes("update "@);
    if has_prefix(bytes, keyword) {
        parsed_master(bytes.skip(keyword.len() as int))
    } else {
        None
    }
}

/// Whether `bytes` is an update command: the only payload that an
/// encrypted key takes once it is made.
pub open spec fn is_update_command(bytes: Seq<u8>) -> bool {
    parsed_update(bytes).is_some()
}

fn parse_prefixed(bytes: &[u8], keytype: MasterKeyType) -> (found: Option<Vec<u8>>)
    ensures
        match found {
            Some(d) => has_prefix(bytes@, keytype.prefix()) && d@ == bytes@.skip(
                keytype.prefix().len() as int,
            ) && is_token(d@),
            None => !(has_prefix(bytes@, keytype.prefix()) && is_token(
                bytes@.skip(keytype.prefix().len() as int),
            )),
        },
{
    let mut prefix: Vec<u8> = Vec::new();
    push_ascii(&mut prefix, keytype.name());
    prefix.push(0x3a);
    assert(prefix@ =~= keytype.prefix());
    if !starts_with(bytes, prefix.as_slice()) {
        return None;
    }
    let rest = copy_range(bytes, prefix.len(), bytes.len());
    assert(rest@ =~= bytes@.skip(keytype.prefix().len() as int));
    if check_token(rest.as_slice()) {
        Some(rest)
    } else {
        None
    }
}

/// Reads an update command: the type and the description of the new
/// master key.
pub fn parse_update(bytes: &[u8]) -> (found: Option<(MasterKeyType, Vec<u8>)>)
    ensures
        match found {
            Some((keytype, description)) => parsed_update(bytes@) == Some(
                (keytype, description@),
            ),
            None => parsed_update(bytes@).is_none(),
        },
{
    proof {
        reveal_strlit("update ");
    }
    let mut keyword: Vec<u8> = Vec::new();
    push_ascii(&mut keyword, "update ");
    assert(keyword@ =~= ascii_bytes("update "@));
    if !starts_with(bytes, keyword.as_slice()) {
        return None;
    }
    let rest = copy_range(bytes, keyword.len(), bytes.len());
    assert(rest@ =~= bytes@.skip(ascii_bytes("update "@).len() as int));
    match parse_prefixed(rest.as_slice(), MasterKeyType::Trusted) {
        Some(description) => Some((MasterKeyType::Trusted, description)),
        None => match parse_prefixed(rest.as_slice(), MasterKeyType::User) {
            Some(description) => Some((MasterKeyType::User, description)),
            None => None,
        },
    }
}

/// An update command reads back as the master key it was written for.
pub proof fn lemma_update_round_trip(keytype: MasterKeyType, description: Seq<u8>)
    requires
        is_token(description),
    ensures
        parsed_update(update_command(keytype, description)) == Some((keytype, description)),
{
    reveal_strlit("update ");
    reveal_strlit("trusted");
    reveal_strlit("user");
    let keyword = ascii_bytes("update "@);
    let command = update_command(keytype, description);
    let rest = keytype.prefix() + description;
    assert(command.subrange(0, keyword.len() as int) =~= keyword);
    assert(command.skip(keyword.len() as int) =~= rest);
    assert(rest.subrange(0, keytype.prefix().len() as int) =~= keytype.prefix());
    assert(rest.skip(keytype.prefix().len() as int) =~= description);
    if keytype == MasterKeyType::User {
        let trusted = MasterKeyType::Trusted.prefix();
        if has_prefix(rest, trusted) {
            assert(rest.subrange(0, trusted.len() as int)[0] == trusted[0]);
            assert(rest[0] == keytype.prefix()[0]);
        }
    }
}

/// Whatever reads as an update command is the command for the master key
/// that was read from it.
pub proof fn lemma_update_parse_is_exact(bytes: Seq<u8>)
    requires
        parsed_update(bytes).is_some(),
    ensures
        match parsed_update(bytes) {
            Some((keytype, description)) => is_token(description) && bytes == update_command(
                keytype,
                description,
            ),
            None => false,
        },
{
    let keyword = ascii_bytes("update "@);
    let rest = bytes.skip(keyword.len() as int);
    let (keytype, description) = parsed_update(bytes)->0;
    let prefix = keytype.prefix();
    assert(rest.subrange(0, prefix.len() as int) == prefix);
    assert(rest =~= rest.subrange(0, prefix.len() as int) + rest.skip(prefix.len() as int));
    assert(bytes =~= bytes.subrange(0, keyword.len() as int) + rest);
    assert(bytes =~= keyword + prefix + description);
}

/// The blob of a load command follows its keyword unchanged: nothing is
/// added, dropped or re-encoded.
pub proof fn lemma_load_keeps_blob(blob: Seq<u8>)
    ensures
        load_command(blob).len() == 5 + blob.len(),
        load_command(blob).skip(5) == blob,
        has_prefix(load_command(blob), ascii_bytes("load "@)),
{
    reveal_strlit("load ");
    let keyword = ascii_bytes("load "@);
    assert(load_command(blob).skip(5) =~= blob);
    assert(load_command(blob).subrange(0, keyword.len() as int) =~= keyword);
}

/// The key type of encrypted keys.
#[derive(Clone, Copy, Debug, PartialEq, Eq, Hash)]
pub struct Encrypted;

impl KeyType for Encrypted {
    type Payload = Payload;

    open spec fn kind() -> KeyKind {
        KeyKind::Encrypted
    }

    /// A key is made by a `new` or a `load` command. An update command
    /// makes no key.
    open spec fn encoded(payload: PayloadView) -> Option<Seq<u8>> {
        if payload is Update {
            None
        } else {
            payload.command()
        }
    }

    fn key_kind() -> (kind: KeyKind) {
        KeyKind::Encrypted
    }

    fn encode(payload: &Payload) -> (bytes: Result<Vec<u8>, Error>) {
        match payload {
            Payload::Update { .. } => Err(Error::caller(ErrorKind::InvalidArgument)),
            _ => payload.command(),
        }
    }
}

impl UpdatableKeyType for Encrypted {
    type Update = Payload;

    /// A key is put under another master key by an update command, and
    /// takes nothing else.
    open spec fn update_encoded(update: PayloadView) -> Option<Seq<u8>> {
        if update is Update {
            update.command()
        } else {
            None
        }
    }

    proof fn kind_is_updatable() {
    }

    proof fn update_is_accepted(update: PayloadView) {
        if let PayloadView::Update { keytype, description } = update {
            if is_token(description) {
                lemma_update_round_trip(keytype, description);
            }
        }
    }

    fn encode_update(update: &Payload) -> (bytes: Result<Vec<u8>, Error>) {
        match update {
            Payload::Update { .. } => update.command(),
            _ => Err(Error::caller(ErrorKind::InvalidArgument)),
        }
    }
}

impl ReadableKeyType for Encrypted {
    /// What is read is a blob in the kernel's own form. It is not the
    /// secret, and serves only a later `load` command.
    type Value = Vec<u8>;

    open spec fn decoded(bytes: Seq<u8>) -> Option<Seq<u8>> {
        Some(bytes)
    }

    proof fn kind_is_readable() {
    }

    fn decode(bytes: &[u8]) -> (value: Result<Vec<u8>, Error>) {
        Ok(to_vec(bytes))
    }
}

} // verus!
