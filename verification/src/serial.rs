//! Serial numbers of keys and keyrings, and the keyrings that the kernel
//! knows by a fixed serial.

use vstd::prelude::*;
use crate::error::{Error, ErrorKind};

verus! {

/// The serial number of a key or keyring. It is never zero. Two handles with
/// the same serial name the same kernel object.
#[derive(Clone, Copy, Debug, PartialEq, Eq, Structural, Hash)]
pub struct KeySerial {
    raw: i32,
}

impl KeySerial {
    #[verifier::type_invariant]
    spec fn nonzero(self) -> bool {
        self.raw != 0
    }

    /// The number itself.
    pub closed spec fn value(self) -> int {
        self.raw as int
    }

    /// What `new` returns for `raw`.
    pub open spec fn checked(raw: i32) -> Result<int, Error> {
        if raw == 0 {
            Err(Error::caller_spec(ErrorKind::InvalidArgument))
        } else {
            Ok(raw as int)
        }
    }

    /// Wraps a serial number. Zero names nothing and is refused here, so
    /// that it never reaches the kernel.
    pub fn new(raw: i32) -> (serial: Result<KeySerial, Error>)
        ensures
            match serial {
                Ok(s) => Self::checked(raw) == Ok::<int, Error>(s.value()),
                Err(e) => Self::checked(raw) == Err::<int, Error>(e),
            },
    {
        if raw == 0 {
            Err(Error::caller(ErrorKind::InvalidArgument))
        } else {
            Ok(KeySerial { raw })
        }
    }

    /// The number itself.
    pub fn get(&self) -> (raw: i32)
        ensures
            raw == self.value(),
            raw != 0,
    {
        proof {
            use_type_invariant(self);
        }
        self.raw
    }

    /// Whether the serial is one of the fixed serials of the special
    /// keyrings rather than the number of a kernel object.
    pub fn is_special(&self) -> (special: bool)
        ensures
            special == (-7 <= self.value() <= -1),
    {
        -7 <= self.raw && self.raw <= -1
    }
}

/// Serials are equal exactly when their numbers are.
pub proof fn lemma_serial_equality(a: KeySerial, b: KeySerial)
    ensures
        (a == b) <==> (a.value() == b.value()),
{
}

/// The keyrings that every process can name without looking them up.
#[derive(Clone, Copy, Debug, PartialEq, Eq, Structural, Hash)]
pub enum SpecialKeyring {
    /// The keyring of the calling thread.
    Thread,
    /// The keyring of the calling process.
    Process,
    /// The keyring of the session.
    Session,
    /// The keyring of the user.
    User,
    /// The default session keyring of the user.
    UserSession,
    /// The keyring of the group.
    Group,
    /// The authorisation key of the `request_key` call being served.
    RequestKeyAuthKey,
}

impl SpecialKeyring {
    /// The fixed serial by which the kernel knows the keyring.
    pub open spec fn serial_value(self) -> int {
        match self {
            SpecialKeyring::Thread => -1,
            SpecialKeyring::Process => -2,
            SpecialKeyring::Session => -3,
            SpecialKeyring::User => -4,
            SpecialKeyring::UserSession => -5,
            SpecialKeyring::Group => -6,
            SpecialKeyring::RequestKeyAuthKey => -7,
        }
    }

    /// The special keyring with the given serial, if there is one.
    pub open spec fn of_value(value: int) -> Option<SpecialKeyring> {
        if value == -1 {
            Some(SpecialKeyring::Thread)
        } else if value == -2 {
            Some(SpecialKeyring::Process)
        } else if value == -3 {
            Some(SpecialKeyring::Session)
        } else if value == -4 {
            Some(SpecialKeyring::User)
        } else if value == -5 {
            Some(SpecialKeyring::UserSession)
        } else if value == -6 {
            Some(SpecialKeyring::Group)
        } else if value == -7 {
            Some(SpecialKeyring::RequestKeyAuthKey)
        } else {
            None
        }
    }

    /// The fixed serial by which the kernel knows the keyring. No system
    /// call is needed to learn it.
    pub fn serial(self) -> (serial: KeySerial)
        ensures
            serial.value() == self.serial_value(),
    {
        let raw: i32 = match self {
            SpecialKeyring::Thread => -1,
            SpecialKeyring::Process => -2,
            SpecialKeyring::Session => -3,
            SpecialKeyring::User => -4,
            SpecialKeyring::UserSession => -5,
            SpecialKeyring::Group => -6,
            SpecialKeyring::RequestKeyAuthKey => -7,
        };
        KeySerial { raw }
    }

    /// The special keyring that a serial names, if it names one.
    pub fn from_serial(serial: KeySerial) -> (special: Option<SpecialKeyring>)
        ensures
            special == Self::of_value(serial.value()),
    {
        let raw = serial.get();
        if raw == -1 {
            Some(SpecialKeyring::Thread)
        } else if raw == -2 {
            Some(SpecialKeyring::Process)
        } else if raw == -3 {
            Some(SpecialKeyring::Session)
        } else if raw == -4 {
            Some(SpecialKeyring::User)
        } else if raw == -5 {
            Some(SpecialKeyring::UserSession)
        } else if raw == -6 {
            Some(SpecialKeyring::Group)
        } else if raw == -7 {
            Some(SpecialKeyring::RequestKeyAuthKey)
        } else {
            None
        }
    }
}

/// Every special keyring has a serial of its own, in the reserved range, and
/// the serial leads back to the keyring.
pub proof fn lemma_special_serials(a: SpecialKeyring, b: SpecialKeyring)
    ensures
        -7 <= a.serial_value() <= -1,
        SpecialKeyring::of_value(a.serial_value()) == Some(a),
        a.serial_value() == b.serial_value() ==> a == b,
{
}

} // verus!
