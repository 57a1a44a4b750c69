//! Keys whose secret the kernel generates and the TPM seals. A key is made
//! by a command in text; what is read from it is the sealed blob.

use vstd::prelude::*;
use vstd::string::*;
use crate::error::{Error, ErrorKind};
use crate::hex::{hex_number, push_hex};
use crate::keytype::{KeyKind, KeyType, ReadableKeyType, UpdatableKeyType};
use crate::text::{ascii_bytes, decimal, has_prefix, is_token};
use crate::text::{check_token, equals_ascii, push_ascii, push_bytes, push_decimal, starts_with, to_vec};

verus! {

/// What a command may say of the sealing. Each option is left out of the
/// command where it is `None`.
#[derive(Clone, Copy, Debug, PartialEq, Eq, Structural, Hash)]
pub struct Options {
    /// The handle of the sealing key in the TPM.
    pub keyhandle: Option<u32>,
    /// The platform configuration register to extend once the key is
    /// loaded, which locks the key for the rest of the boot.
    pub pcrlock: Option<u32>,
    /// Whether the key may be sealed again under other register values.
    pub migratable: Option<bool>,
}

/// The text of one register lock, or nothing where none is asked for.
pub open spec fn pcrlock_text(pcrlock: Option<u32>) -> Seq<u8> {
    match pcrlock {
        Some(register) => ascii_bytes(" pcrlock="@) + decimal(register as nat),
        None => Seq::empty(),
    }
}

/// The text of the options: each one that is given, behind a space, as its
/// name, `=` and its value. The handle is in hexadecimal, the register in
/// decimal, the flag `1` or `0`.
pub open spec fn options_text(options: Options) -> Seq<u8> {
    let handle = match options.keyhandle {
        Some(h) => ascii_bytes(" keyhandle="@) + hex_number(h as nat),
        None => Seq::empty(),
    };
    let migratable = match options.migratable {
        Some(flag) => ascii_bytes(" migratable="@).push(if flag { 0x31u8 } else { 0x30u8 }),
        None => Seq::empty(),
    };
    handle + pcrlock_text(options.pcrlock) + migratable
}

/// The command that makes a new key of `keylen` random bytes.
pub open spec fn new_command(keylen: u32, options: Options) -> Seq<u8> {
    ascii_bytes("new "@) + decimal(keylen as nat) + options_text(options)
}

/// The command that makes a key from a sealed blob.
pub open spec fn load_command(blob: Seq<u8>, pcrlock: Option<u32>) -> Seq<u8> {
    ascii_bytes("load "@) + blob + pcrlock_text(pcrlock)
}

/// The command that seals a key again under other options.
pub open spec fn update_command(options: Options) -> Seq<u8> {
    ascii_bytes("update"@) + options_text(options)
}

/// Whether `bytes` opens as an update command does: with the keyword, alone
/// or followed by a space. Nothing else is taken by a trusted key once it
/// is made.
pub open spec fn is_update_command(bytes: Seq<u8>) -> bool {
    bytes == ascii_bytes("update"@) || has_prefix(bytes, ascii_bytes("update "@))
}

/// A request to the handler of trusted keys.
#[derive(Clone, Debug, PartialEq, Eq, Hash)]
pub enum Payload {
    /// Make a new key.
    New {
        /// The length of the new key in bytes.
        keylen: u32,
        /// How to seal it.
        options: Options,
    },
    /// Make a key from a sealed blob.
    Load {
        /// The blob, as it was read from a trusted key.
        blob: Vec<u8>,
        /// The register to extend once the key is loaded.
        pcrlock: Option<u32>,
    },
    /// Seal the key again.
    Update {
        /// How to seal it.
        options: Options,
    },
}

/// A request to the handler of trusted keys, as plain values.
pub enum PayloadView {
    New { keylen: u32, options: Options },
    Load { blob: Seq<u8>, pcrlock: Option<u32> },
    Update { options: Options },
}

impl View for Payload {
    type V = PayloadView;

    open spec fn view(&self) -> PayloadView {
        match self {
            Payload::New { keylen, options } => PayloadView::New {
                keylen: *keylen,
                options: *options,
            },
            Payload::Load { blob, pcrlock } => PayloadView::Load { blob: blob@, pcrlock: *pcrlock },
            Payload::Update { options } => PayloadView::Update { options: *options },
        }
    }
}

impl PayloadView {
    /// The command that states the request, or `None` where the blob
    /// cannot stand in a command as one word.
    pub open spec fn command(self) -> Option<Seq<u8>> {
        match self {
            PayloadView::New { keylen, options } => Some(new_command(keylen, options)),
            PayloadView::Load { blob, pcrlock } => if is_token(blob) {
                Some(load_command(blob, pcrlock))
            } else {
                None
            },
            PayloadView::Update { options } => Some(update_command(options)),
        }
    }
}

fn push_pcrlock(out: &mut Vec<u8>, pcrlock: Option<u32>)
    ensures
        final(out)@ == old(out)@ + pcrlock_text(pcrlock),
{
    if let Some(register) = pcrlock {
        proof {
            reveal_strlit(" pcrlock=");
        }
        push_ascii(out, " pcrlock=");
        push_decimal(out, register as u64);
        assert(out@ =~= old(out)@ + pcrlock_text(pcrlock));
    } else {
        assert(out@ =~= old(out)@ + pcrlock_text(pcrlock));
    }
}

fn push_options(out: &mut Vec<u8>, options: &Options)
    ensures
        final(out)@ == old(out)@ + options_text(*options),
{
    if let Some(handle) = options.keyhandle {
        proof {
            reveal_strlit(" keyhandle=");
        }
        push_ascii(out, " keyhandle=");
        push_hex(out, handle as u64);
    }
    push_pcrlock(out, options.pcrlock);
    if let Some(flag) = options.migratable {
        proof {
            reveal_strlit(" migratable=");
        }
        push_ascii(out, " migratable=");
        out.push(if flag { 0x31u8 } else { 0x30u8 });
    }
    assert(out@ =~= old(out)@ + options_text(*options));
}

impl Payload {
    /// The command that states the request. A blob that cannot stand in a
    /// command as one word is refused as an invalid argument.
    pub fn command(&self) -> (bytes: Result<Vec<u8>, Error>)
        ensures
            match bytes {
                Ok(b) => self@.command() == Some(b@),
                Err(e) => self@.command().is_none() && e == Error::caller_spec(
                    ErrorKind::InvalidArgument,
                ),
            },
    {
        let mut out: Vec<u8> = Vec::new();
        match self {
            Payload::New { keylen, options } => {
                proof {
                    reveal_strlit("new ");
                }
                push_ascii(&mut out, "new ");
                push_decimal(&mut out, *keylen as u64);
                push_options(&mut out, options);
                assert(out@ =~= new_command(*keylen, *options));
            },
            Payload::Load { blob, pcrlock } => {
                if !check_token(blob.as_slice()) {
                    return Err(Error::caller(ErrorKind::InvalidArgument));
                }
                proof {
                    reveal_strlit("load ");
                }
                push_ascii(&mut out, "load ");
                push_bytes(&mut out, blob.as_slice());
                push_pcrlock(&mut out, *pcrlock);
            },
            Payload::Update { options } => {
                proof {
                    reveal_strlit("update");
                }
                push_ascii(&mut out, "update");
                push_options(&mut out, options);
            },
        }
        Ok(out)
    }
}

/// Whether `bytes` opens as an update command does.
pub fn check_update_command(bytes: &[u8]) -> (update: bool)
    ensures
        update == is_update_command(bytes@),
{
    proof {
        reveal_strlit("update");
        reveal_strlit("update ");
    }
    if equals_ascii(bytes, "update") {
        return true;
    }
    let mut keyword: Vec<u8> = Vec::new();
    push_ascii(&mut keyword, "update ");
    assert(keyword@ =~= ascii_bytes("update "@));
    starts_with(bytes, keyword.as_slice())
}

/// Every update command that this module writes is one that a trusted key
/// takes.
pub proof fn lemma_update_command_is_taken(options: Options)
    ensures
        is_update_command(update_command(options)),
{
    reveal_strlit("update");
    reveal_strlit("update ");
    reveal_strlit(" keyhandle=");
    reveal_strlit(" pcrlock=");
    reveal_strlit(" migratable=");
    let keyword = ascii_bytes("update"@);
    let text = options_text(options);
    let command = update_command(options);
    if text.len() == 0 {
        assert(command =~= keyword);
    } else {
        assert(text[0] == 0x20u8);
        assert(command.subrange(0, 7) =~= ascii_bytes("update "@));
    }
}

/// The key type of trusted keys.
#[derive(Clone, Copy, Debug, PartialEq, Eq, Hash)]
pub struct Trusted;

impl KeyType for Trusted {
    type Payload = Payload;

    open spec fn kind() -> KeyKind {
        KeyKind::Trusted
    }

    /// A key is made by a `new` or a `load` command. An update command
    /// makes no key.
    open spec fn encoded(payload: PayloadView) -> Option<Seq<u8>> {
        if payload is Update {
            None
        } else {
            payload.command()
        }
    }

    fn key_kind() -> (kind: KeyKind) {
        KeyKind::Trusted
    }

    fn encode(payload: &Payload) -> (bytes: Result<Vec<u8>, Error>) {
        match payload {
            Payload::Update { .. } => Err(Error::caller(ErrorKind::InvalidArgument)),
            _ => payload.command(),
        }
    }
}

impl UpdatableKeyType for Trusted {
    type Update = Payload;

    /// A key is sealed again by an update command, and takes nothing
    /// else.
    open spec fn update_encoded(update: PayloadView) -> Option<Seq<u8>> {
        if update is Update {
            update.command()
        } else {
            None
        }
    }

    proof fn kind_is_updatable() {
    }

    proof fn update_is_accepted(update: PayloadView) {
        if let PayloadView::Update { options } = update {
            lemma_update_command_is_taken(options);
        }
    }

    fn encode_update(update: &Payload) -> (bytes: Result<Vec<u8>, Error>) {
        match update {
            Payload::Update { .. } => update.command(),
            _ => Err(Error::caller(ErrorKind::InvalidArgument)),
        }
    }
}

impl ReadableKeyType for Trusted {
    /// What is read is the sealed blob, which a `load` command takes.
    type Value = Vec<u8>;

    open spec fn decoded(bytes: Seq<u8>) -> Option<Seq<u8>> {
        Some(bytes)
    }

    proof fn kind_is_readable() {
    }

    fn decode(bytes: &[u8]) -> (value: Result<Vec<u8>, Error>) {
        Ok(to_vec(bytes))
    }
}

} // verus!
