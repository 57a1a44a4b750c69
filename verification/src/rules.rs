//! The rules that a request is held to before it is sent: what is refused
//! here would be refused by the kernel, and is spared the system call.
//!
//! The rules that depend on the running system apply only where the caller
//! gives an `Environment`. Without one they are left to the kernel.

use vstd::prelude::*;
use crate::environment::Environment;
use crate::error::{Error, ErrorKind};
use crate::keytype::{KeyKind, UpdateShape};
use crate::keytypes::encrypted;
use crate::keytypes::trusted;
use crate::text::{contains_byte, find_byte, first_index};

verus! {

/// Whether a description names a service before an identifier: it holds a
/// colon, and not as its first byte.
pub open spec fn has_service_prefix(description: Seq<u8>) -> bool {
    match first_index(description, 0x3au8) {
        Some(i) => i > 0,
        None => false,
    }
}

/// Why a description cannot name a key of any type, if it cannot: it is
/// empty, it holds a NUL, which would end it early, or it is longer than
/// the running system allows.
pub open spec fn description_refusal(env: Option<Environment>, description: Seq<u8>) -> Option<
    ErrorKind,
> {
    if description.len() == 0 {
        Some(ErrorKind::InvalidArgument)
    } else if description.contains(0u8) {
        Some(ErrorKind::InvalidArgument)
    } else if env.is_some() && description.len() > env->0.max_description_len() {
        Some(ErrorKind::InvalidArgument)
    } else {
        None
    }
}

/// Why a key of the given type cannot be made with the given description
/// and payload, if it cannot. The rules apply in this order:
///
/// 1. the description is empty, holds a NUL or is too long: invalid;
/// 2. the type takes no payload and one is given: invalid;
/// 3. the type's payload is bounded by the page and this one is longer:
///    invalid;
/// 4. the type is `logon` and the description names no service: invalid;
/// 5. the type is `keyring` and the description starts with a dot, which
///    is kept for the kernel's own keyrings: permission denied;
/// 6. the user's quota has no room for the key: quota exceeded.
pub open spec fn add_key_refusal(
    env: Option<Environment>,
    kind: KeyKind,
    description: Seq<u8>,
    payload: Seq<u8>,
) -> Option<ErrorKind> {
    if description_refusal(env, description).is_some() {
        description_refusal(env, description)
    } else if !kind.takes_payload() && payload.len() > 0 {
        Some(ErrorKind::InvalidArgument)
    } else if env.is_some() && kind.page_bounded() && payload.len() > env->0.max_payload_len() {
        Some(ErrorKind::InvalidArgument)
    } else if kind == KeyKind::Logon && !has_service_prefix(description) {
        Some(ErrorKind::InvalidArgument)
    } else if kind == KeyKind::Keyring && description[0] == 0x2eu8 {
        Some(ErrorKind::PermissionDenied)
    } else if env.is_some() && !env->0.quota.admits_new_key(
        description.len() as int,
        payload.len() as int,
    ) {
        Some(ErrorKind::QuotaExceeded)
    } else {
        None
    }
}

/// Whether a key of the given type takes `payload` as its new payload.
pub open spec fn update_accepted(kind: KeyKind, payload: Seq<u8>) -> bool {
    match kind.update_shape() {
        UpdateShape::Unsupported => false,
        UpdateShape::Raw => true,
        UpdateShape::Structured => if kind == KeyKind::Encrypted {
            encrypted::is_update_command(payload)
        } else {
            trusted::is_update_command(payload)
        },
    }
}

/// Why a key of the given type cannot be given the new payload, if it
/// cannot: the type does not take it, or it is longer than the user's
/// whole quota.
pub open spec fn update_refusal(env: Option<Environment>, kind: KeyKind, payload: Seq<u8>) -> Option<
    ErrorKind,
> {
    if !update_accepted(kind, payload) {
        Some(ErrorKind::InvalidArgument)
    } else if env.is_some() && !env->0.quota.admits_payload(payload.len() as int) {
        Some(ErrorKind::QuotaExceeded)
    } else {
        None
    }
}

/// The environment behind the reference, if one is given.
pub open spec fn known(env: Option<&Environment>) -> Option<Environment> {
    match env {
        Some(e) => Some(*e),
        None => None,
    }
}

/// What a check returns for a refusal: nothing where there is none, else
/// the error of that kind, laid on the caller.
pub open spec fn verdict(refusal: Option<ErrorKind>) -> Result<(), Error> {
    match refusal {
        Some(kind) => Err(Error::caller_spec(kind)),
        None => Ok(()),
    }
}

/// Whether a description names a service before an identifier.
pub fn check_service_prefix(description: &[u8]) -> (found: bool)
    ensures
        found == has_service_prefix(description@),
{
    match find_byte(description, 0x3a) {
        Some(i) => i > 0,
        None => false,
    }
}

/// Holds a description to the rules for every key type.
pub fn check_description(env: Option<&Environment>, description: &[u8]) -> (outcome: Result<
    (),
    Error,
>)
    ensures
        outcome == verdict(description_refusal(known(env), description@)),
{
    if description.len() == 0 {
        return Err(Error::caller(ErrorKind::InvalidArgument));
    }
    if contains_byte(description, 0) {
        return Err(Error::caller(ErrorKind::InvalidArgument));
    }
    if let Some(e) = env {
        if !e.description_fits(description.len()) {
            return Err(Error::caller(ErrorKind::InvalidArgument));
        }
    }
    Ok(())
}

/// Holds the making of a key to the rules.
pub fn check_add_key(
    env: Option<&Environment>,
    kind: KeyKind,
    description: &[u8],
    payload: &[u8],
) -> (outcome: Result<(), Error>)
    ensures
        outcome == verdict(add_key_refusal(known(env), kind, description@, payload@)),
{
    check_description(env, description)?;
    if !kind.has_payload() && payload.len() > 0 {
        return Err(Error::caller(ErrorKind::InvalidArgument));
    }
    if let Some(e) = env {
        if kind.is_page_bounded() && !e.payload_fits(payload.len()) {
            return Err(Error::caller(ErrorKind::InvalidArgument));
        }
    }
    if kind == KeyKind::Logon && !check_service_prefix(description) {
        return Err(Error::caller(ErrorKind::InvalidArgument));
    }
    if kind == KeyKind::Keyring && description[0] == 0x2e {
        return Err(Error::caller(ErrorKind::PermissionDenied));
    }
    if let Some(e) = env {
        if !e.quota.has_room_for_key(description.len(), payload.len()) {
            return Err(Error::caller(ErrorKind::QuotaExceeded));
        }
    }
    Ok(())
}

/// Whether a key of the given type takes `payload` as its new payload.
pub fn check_update_accepted(kind: KeyKind, payload: &[u8]) -> (accepted: bool)
    ensures
        accepted == update_accepted(kind, payload@),
{
    match kind.update() {
        UpdateShape::Unsupported => false,
        UpdateShape::Raw => true,
        UpdateShape::Structured => if kind == KeyKind::Encrypted {
            encrypted::parse_update(payload).is_some()
        } else {
            trusted::check_update_command(payload)
        },
    }
}

/// Holds the update of a key to the rules.
pub fn check_update(env: Option<&Environment>, kind: KeyKind, payload: &[u8]) -> (outcome: Result<
    (),
    Error,
>)
    ensures
        outcome == verdict(update_refusal(known(env), kind, payload@)),
{
    if !check_update_accepted(kind, payload) {
        return Err(Error::caller(ErrorKind::InvalidArgument));
    }
    if let Some(e) = env {
        if !e.quota.has_room_for_payload(payload.len()) {
            return Err(Error::caller(ErrorKind::QuotaExceeded));
        }
    }
    Ok(())
}

} // verus!
