//! What holds of the operations taken together.

use vstd::prelude::*;
use crate::environment::Environment;
use crate::error::{kind_of_errno, Error, ErrorKind, ErrorSource, ENODEV};
use crate::key::update_outcome;
use crate::keyring::{add_key_outcome, lemma_keyring_is_its_serial, Keyring};
use crate::keytype::{lemma_names_are_well_formed, KeyKind, KeyType, ReadableKeyType};
use crate::keytypes::encrypted;
use crate::keytypes::encrypted::{Encrypted, MasterKeyType};
use crate::keytypes::user::User;
use crate::request::{answered_serial, completion, RequestView};
use crate::rules::{add_key_refusal, description_refusal, update_refusal};
use crate::serial::{lemma_serial_equality, KeySerial};
use crate::text::is_token;

verus! {

/// Attaching to a special keyring gives a handle to the serial that the
/// kernel answered with, whole: two answers give equal handles exactly
/// where the kernel named the same keyring. So where the kernel resolves
/// the same special keyring to the same object on every call, every call
/// yields the same handle.
pub proof fn law_attach_yields_the_answered_keyring(
    first: Keyring,
    second: Keyring,
    first_reply: Result<i64, i32>,
    second_reply: Result<i64, i32>,
)
    requires
        answered_serial(first_reply) == Ok::<int, Error>(first@.value()),
        answered_serial(second_reply) == Ok::<int, Error>(second@.value()),
    ensures
        (first == second) <==> (first_reply == second_reply),
{
    lemma_keyring_is_its_serial(first, second);
    lemma_serial_equality(first@, second@);
}

/// A key with an empty description is refused as an invalid argument,
/// whatever its type, its payload, the keyring and the running system.
pub proof fn law_empty_description_is_invalid(
    env: Option<Environment>,
    keyring: KeySerial,
    kind: KeyKind,
    payload: Option<Seq<u8>>,
)
    ensures
        add_key_outcome(env, keyring, kind, Seq::empty(), payload) == Err::<RequestView, Error>(
            Error::caller_spec(ErrorKind::InvalidArgument),
        ),
{
}

/// Where the kernel has no handler for a key type it answers with
/// `ENODEV`, and that is reported as an unsupported key type by every
/// operation.
pub proof fn law_missing_handler_is_unsupported_type()
    ensures
        kind_of_errno(ENODEV) == ErrorKind::UnsupportedKeyType,
        answered_serial(Err(ENODEV)) == Err::<int, Error>(
            Error { source: ErrorSource::Kernel, kind: ErrorKind::UnsupportedKeyType },
        ),
        completion(Err(ENODEV)) == Err::<(), Error>(
            Error { source: ErrorSource::Kernel, kind: ErrorKind::UnsupportedKeyType },
        ),
{
}

/// A keyring cannot be made with a payload: any payload that is not empty
/// is refused as an invalid argument, whatever the description.
pub proof fn law_keyring_takes_no_payload(
    env: Option<Environment>,
    keyring: KeySerial,
    description: Seq<u8>,
    payload: Seq<u8>,
)
    requires
        payload.len() > 0,
    ensures
        add_key_outcome(env, keyring, KeyKind::Keyring, description, Some(payload)) == Err::<
            RequestView,
            Error,
        >(Error::caller_spec(ErrorKind::InvalidArgument)),
{
}

/// A keyring whose description starts with a dot is denied: such names are
/// the kernel's own. This is so for every description that could
/// otherwise name a key.
pub proof fn law_reserved_keyring_name_is_denied(
    env: Option<Environment>,
    keyring: KeySerial,
    description: Seq<u8>,
)
    requires
        description_refusal(env, description).is_none(),
        description[0] == 0x2eu8,
    ensures
        add_key_outcome(env, keyring, KeyKind::Keyring, description, Some(Seq::empty())) == Err::<
            RequestView,
            Error,
        >(Error::caller_spec(ErrorKind::PermissionDenied)),
{
}

/// A user key carries its payload unchanged both ways. What is sent to
/// make the key, and what is sent to update it, is the payload byte for
/// byte; what is read is handed on byte for byte. So a key reads as it
/// was last written, as far as the kernel keeps what it was sent.
pub proof fn law_user_payload_round_trip(
    env: Option<Environment>,
    keyring: KeySerial,
    key: KeySerial,
    description: Seq<u8>,
    payload: Seq<u8>,
    new_payload: Seq<u8>,
)
    requires
        add_key_refusal(env, KeyKind::User, description, payload).is_none(),
        update_refusal(env, KeyKind::User, new_payload).is_none(),
    ensures
        add_key_outcome(env, keyring, KeyKind::User, description, User::encoded(payload)) == Ok::<
            RequestView,
            Error,
        >(RequestView::AddKey { kind: KeyKind::User, description, payload, keyring }),
        User::decoded(payload) == Some(payload),
        update_outcome(env, key, KeyKind::User, new_payload) == Ok::<RequestView, Error>(
            RequestView::Update { key, payload: new_payload },
        ),
        User::decoded(new_payload) == Some(new_payload),
{
}

/// A description that is one byte longer than the running system allows,
/// or longer still, is refused as an invalid argument, whatever the quota,
/// the type and the payload.
pub proof fn law_overlong_description_is_invalid(
    env: Environment,
    keyring: KeySerial,
    kind: KeyKind,
    description: Seq<u8>,
    payload: Option<Seq<u8>>,
)
    requires
        description.len() > env.max_description_len(),
    ensures
        add_key_outcome(Some(env), keyring, kind, description, payload) == Err::<
            RequestView,
            Error,
        >(Error::caller_spec(ErrorKind::InvalidArgument)),
{
}

/// A description of exactly the greatest length that the running system
/// allows can name a user key: the request is refused only where the
/// quota has no room for the key.
pub proof fn law_longest_description_is_taken(
    env: Environment,
    keyring: KeySerial,
    description: Seq<u8>,
    payload: Seq<u8>,
)
    requires
        description.len() == env.max_description_len(),
        description.len() > 0,
        !description.contains(0u8),
        payload.len() <= env.max_payload_len(),
    ensures
        add_key_outcome(Some(env), keyring, KeyKind::User, description, Some(payload)) == if env.quota.admits_new_key(
            description.len() as int,
            payload.len() as int,
        ) {
            Ok::<RequestView, Error>(
                RequestView::AddKey { kind: KeyKind::User, description, payload, keyring },
            )
        } else {
            Err::<RequestView, Error>(Error::caller_spec(ErrorKind::QuotaExceeded))
        },
{
}

/// A payload that is sent to make a key fits the page of the running
/// system, less the kernel's header, unless its type is free of that bound;
/// and the key fits the user's quota.
pub proof fn law_sent_payload_is_within_bounds(
    env: Environment,
    keyring: KeySerial,
    kind: KeyKind,
    description: Seq<u8>,
    payload: Seq<u8>,
)
    requires
        add_key_outcome(Some(env), keyring, kind, description, Some(payload)).is_ok(),
    ensures
        kind.page_bounded() ==> payload.len() <= env.max_payload_len(),
        0 < description.len() <= env.max_description_len(),
        env.quota.admits_new_key(description.len() as int, payload.len() as int),
{
}

/// What is sent to make a key can be handed to the kernel as it is: the
/// description is not empty and holds no NUL, so the terminator that ends
/// it is the one that the caller's system call adds; and the type's name
/// is one that the kernel takes for a name.
pub proof fn law_sent_names_are_whole(
    env: Option<Environment>,
    keyring: KeySerial,
    kind: KeyKind,
    description: Seq<u8>,
    payload: Option<Seq<u8>>,
)
    requires
        add_key_outcome(env, keyring, kind, description, payload).is_ok(),
    ensures
        description.len() > 0,
        !description.contains(0u8),
        0 < kind.name_bytes().len() < 32,
        !kind.name_bytes().contains(0u8),
        payload.is_some(),
        add_key_outcome(env, keyring, kind, description, payload) == Ok::<RequestView, Error>(
            RequestView::AddKey { kind, description, payload: payload->0, keyring },
        ),
{
    lemma_names_are_well_formed(kind);
}

/// An encrypted key takes no bytes as its new payload but an update
/// command: anything else is refused as an invalid argument.
pub proof fn law_encrypted_key_refuses_raw_update(
    env: Option<Environment>,
    key: KeySerial,
    payload: Seq<u8>,
)
    requires
        !encrypted::is_update_command(payload),
    ensures
        update_outcome(env, key, KeyKind::Encrypted, payload) == Err::<RequestView, Error>(
            Error::caller_spec(ErrorKind::InvalidArgument),
        ),
{
}

/// An encrypted key takes the update command for any master key, and the
/// command is sent as it was written. Only a command longer than the
/// user's whole quota is held back.
pub proof fn law_encrypted_key_takes_update_command(
    env: Option<Environment>,
    key: KeySerial,
    keytype: MasterKeyType,
    description: Seq<u8>,
)
    requires
        is_token(description),
        env.is_some() ==> env->0.quota.admits_payload(
            encrypted::update_command(keytype, description).len() as int,
        ),
    ensures
        update_outcome(
            env,
            key,
            KeyKind::Encrypted,
            encrypted::update_command(keytype, description),
        ) == Ok::<RequestView, Error>(
            RequestView::Update { key, payload: encrypted::update_command(keytype, description) },
        ),
{
    encrypted::lemma_update_round_trip(keytype, description);
}

/// A blob that was read from an encrypted key goes into a load command
/// whole: reading hands the kernel's bytes on unchanged, and the command
/// is its keyword followed by those bytes, none added, dropped or encoded
/// anew.
pub proof fn law_load_keeps_what_was_read(read: Seq<u8>)
    ensures
        Encrypted::decoded(read) == Some(read),
        Encrypted::encoded(encrypted::PayloadView::Load { blob: read }) == Some(
            encrypted::load_command(read),
        ),
        encrypted::load_command(read).len() == read.len() + 5,
        encrypted::load_command(read).skip(5) == read,
{
    encrypted::lemma_load_keeps_blob(read);
}

/// No operation that only succeeds or fails adds a failure of its own to
/// the kernel's answer: it fails exactly where the kernel reported an
/// error number, and then with the kind of that number. Taking a key out
/// of a keyring is such an operation, whoever else holds the key.
pub proof fn law_completion_is_the_kernels(reply: Result<i64, i32>)
    ensures
        completion(reply).is_err() <==> reply.is_err(),
        reply matches Err(errno) ==> completion(reply) == Err::<(), Error>(
            Error { source: ErrorSource::Kernel, kind: kind_of_errno(errno) },
        ),
{
}

} // verus!
