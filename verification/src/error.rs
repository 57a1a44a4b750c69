//! The kinds of failure that an operation on a key can end in.

use vstd::prelude::*;

verus! {

/// Operation not permitted.
pub const EPERM: i32 = 1;

/// Out of memory.
pub const ENOMEM: i32 = 12;

/// Permission denied.
pub const EACCES: i32 = 13;

/// No such device: the kernel has no handler for the key type.
pub const ENODEV: i32 = 19;

/// Invalid argument.
pub const EINVAL: i32 = 22;

/// Disk quota exceeded: for keys, the user's key quota.
pub const EDQUOT: i32 = 122;

/// Required key not available.
pub const ENOKEY: i32 = 126;

/// Key has expired.
pub const EKEYEXPIRED: i32 = 127;

/// Key has been revoked.
pub const EKEYREVOKED: i32 = 128;

/// Key was rejected by service.
pub const EKEYREJECTED: i32 = 129;

/// What went wrong, told apart without looking at an error number.
#[derive(Clone, Copy, Debug, PartialEq, Eq, Structural, Hash)]
pub enum ErrorKind {
    /// The payload is malformed, or the description is empty, too long or
    /// otherwise unusable.
    InvalidArgument,
    /// The running kernel has no support for the key type or the operation.
    UnsupportedKeyType,
    /// The key type forbids the operation, or the caller lacks the permission
    /// for it.
    PermissionDenied,
    /// The user's quota of keys or of bytes would be exceeded.
    QuotaExceeded,
    /// No such key.
    KeyNotFound,
    /// The key has expired.
    KeyExpired,
    /// The key has been revoked.
    KeyRevoked,
    /// The key was negatively instantiated.
    KeyRejected,
    /// The kernel could not allocate memory.
    OutOfMemory,
    /// Any other error number, carried as it came.
    Other(i32),
}

/// Whether an error number has a kind of its own.
pub open spec fn is_modeled_errno(errno: i32) -> bool {
    errno == EPERM || errno == ENOMEM || errno == EACCES || errno == ENODEV || errno == EINVAL
        || errno == EDQUOT || errno == ENOKEY || errno == EKEYEXPIRED || errno == EKEYREVOKED
        || errno == EKEYREJECTED
}

/// The kind that an error number stands for. The same number gives the same
/// kind whatever operation it came from.
pub open spec fn kind_of_errno(errno: i32) -> ErrorKind {
    if errno == EINVAL {
        ErrorKind::InvalidArgument
    } else if errno == ENODEV {
        ErrorKind::UnsupportedKeyType
    } else if errno == EPERM || errno == EACCES {
        ErrorKind::PermissionDenied
    } else if errno == EDQUOT {
        ErrorKind::QuotaExceeded
    } else if errno == ENOKEY {
        ErrorKind::KeyNotFound
    } else if errno == EKEYEXPIRED {
        ErrorKind::KeyExpired
    } else if errno == EKEYREVOKED {
        ErrorKind::KeyRevoked
    } else if errno == EKEYREJECTED {
        ErrorKind::KeyRejected
    } else if errno == ENOMEM {
        ErrorKind::OutOfMemory
    } else {
        ErrorKind::Other(errno)
    }
}

impl ErrorKind {
    /// Whether the kind can come out of `from_errno`: `Other` never carries a
    /// number that has a kind of its own.
    pub open spec fn is_canonical(self) -> bool {
        match self {
            ErrorKind::Other(errno) => !is_modeled_errno(errno),
            _ => true,
        }
    }

    /// The error number that stands for this kind. Where two numbers share a
    /// kind the more specific one is given: a denied permission is `EACCES`.
    pub open spec fn errno_spec(self) -> i32 {
        match self {
            ErrorKind::InvalidArgument => EINVAL,
            ErrorKind::UnsupportedKeyType => ENODEV,
            ErrorKind::PermissionDenied => EACCES,
            ErrorKind::QuotaExceeded => EDQUOT,
            ErrorKind::KeyNotFound => ENOKEY,
            ErrorKind::KeyExpired => EKEYEXPIRED,
            ErrorKind::KeyRevoked => EKEYREVOKED,
            ErrorKind::KeyRejected => EKEYREJECTED,
            ErrorKind::OutOfMemory => ENOMEM,
            ErrorKind::Other(errno) => errno,
        }
    }

    /// The kind of an error number.
    pub fn from_errno(errno: i32) -> (kind: ErrorKind)
        ensures
            kind == kind_of_errno(errno),
            kind.is_canonical(),
    {
        if errno == EINVAL {
            ErrorKind::InvalidArgument
        } else if errno == ENODEV {
            ErrorKind::UnsupportedKeyType
        } else if errno == EPERM || errno == EACCES {
            ErrorKind::PermissionDenied
        } else if errno == EDQUOT {
            ErrorKind::QuotaExceeded
        } else if errno == ENOKEY {
            ErrorKind::KeyNotFound
        } else if errno == EKEYEXPIRED {
            ErrorKind::KeyExpired
        } else if errno == EKEYREVOKED {
            ErrorKind::KeyRevoked
        } else if errno == EKEYREJECTED {
            ErrorKind::KeyRejected
        } else if errno == ENOMEM {
            ErrorKind::OutOfMemory
        } else {
            ErrorKind::Other(errno)
        }
    }

    /// An error number that stands for this kind.
    pub fn errno(&self) -> (errno: i32)
        ensures
            errno == self.errno_spec(),
    {
        match self {
            ErrorKind::InvalidArgument => EINVAL,
            ErrorKind::UnsupportedKeyType => ENODEV,
            ErrorKind::PermissionDenied => EACCES,
            ErrorKind::QuotaExceeded => EDQUOT,
            ErrorKind::KeyNotFound => ENOKEY,
            ErrorKind::KeyExpired => EKEYEXPIRED,
            ErrorKind::KeyRevoked => EKEYREVOKED,
            ErrorKind::KeyRejected => EKEYREJECTED,
            ErrorKind::OutOfMemory => ENOMEM,
            ErrorKind::Other(errno) => *errno,
        }
    }
}

/// A kind that came out of an error number leads back to itself through its
/// own error number.
pub proof fn lemma_kind_survives_errno(kind: ErrorKind)
    requires
        kind.is_canonical(),
    ensures
        kind_of_errno(kind.errno_spec()) == kind,
{
}

/// Who refused the operation.
#[derive(Clone, Copy, Debug, PartialEq, Eq, Structural, Hash)]
pub enum ErrorSource {
    /// The request was at fault and was never handed to the kernel.
    Caller,
    /// The kernel refused the request, or answered it with something
    /// unusable.
    Kernel,
}

/// A failed operation: who refused it, and why.
#[derive(Clone, Copy, Debug, PartialEq, Eq, Structural, Hash)]
pub struct Error {
    pub source: ErrorSource,
    pub kind: ErrorKind,
}

impl Error {
    /// The error for a request that is refused before any system call.
    pub open spec fn caller_spec(kind: ErrorKind) -> Error {
        Error { source: ErrorSource::Caller, kind }
    }

    /// The error for an error number that the kernel reported.
    pub open spec fn kernel_spec(errno: i32) -> Error {
        Error { source: ErrorSource::Kernel, kind: kind_of_errno(errno) }
    }

    /// The error for a request that is refused before any system call.
    pub fn caller(kind: ErrorKind) -> (error: Error)
        ensures
            error == Error::caller_spec(kind),
    {
        Error { source: ErrorSource::Caller, kind }
    }

    /// The error for an error number that the kernel reported.
    pub fn kernel(errno: i32) -> (error: Error)
        ensures
            error == Error::kernel_spec(errno),
    {
        Error { source: ErrorSource::Kernel, kind: ErrorKind::from_errno(errno) }
    }

    /// Whether the request was refused before it reached the kernel.
    pub fn is_misuse(&self) -> (misuse: bool)
        ensures
            misuse == (self.source == ErrorSource::Caller),
    {
        self.source == ErrorSource::Caller
    }
}

} // verus!
