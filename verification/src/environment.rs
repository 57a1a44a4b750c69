//! Facts about the running system, gathered once by the caller: the kernel's
//! version, the page size and the user's key quota. A request can be held
//! against them before it is sent.

use vstd::prelude::*;

verus! {

/// The bytes of a page that the kernel keeps for its own header in front of
/// a page-bounded payload.
pub const PAYLOAD_RESERVE: usize = 24;

/// The major version of the first kernel that can invalidate a key.
pub const INVALIDATE_MAJOR: u32 = 3;

/// The minor version of the first kernel that can invalidate a key.
pub const INVALIDATE_MINOR: u32 = 5;

/// The version of a kernel, as far as features are told by it.
#[derive(Clone, Copy, Debug, PartialEq, Eq, Structural, Hash)]
pub struct KernelVersion {
    pub major: u32,
    pub minor: u32,
}

impl KernelVersion {
    /// Whether this version is `major.minor` or a later one.
    pub open spec fn at_least(self, major: u32, minor: u32) -> bool {
        self.major > major || (self.major == major && self.minor >= minor)
    }

    /// Whether this version is `major.minor` or a later one.
    pub fn is_at_least(&self, major: u32, minor: u32) -> (later: bool)
        ensures
            later == self.at_least(major, minor),
    {
        self.major > major || (self.major == major && self.minor >= minor)
    }
}

/// The key accounting of one user, as the kernel reports it.
#[derive(Clone, Copy, Debug, PartialEq, Eq, Structural, Hash)]
pub struct KeyQuota {
    /// References held on the accounting record.
    pub usage: usize,
    /// Keys the user owns.
    pub nkeys: usize,
    /// Of those, the keys that are instantiated.
    pub nikeys: usize,
    /// Keys counted against the quota.
    pub qnkeys: usize,
    /// The most keys the user may have.
    pub maxkeys: usize,
    /// Bytes counted against the quota.
    pub qnbytes: usize,
    /// The most bytes the user's keys may take.
    pub maxbytes: usize,
}

impl KeyQuota {
    /// Whether the quota has room for one more key with a description and a
    /// payload of the given lengths. A key is charged its description, the
    /// terminator that the kernel appends to it, and its payload.
    pub open spec fn admits_new_key(self, description_len: int, payload_len: int) -> bool {
        self.qnkeys + 1 <= self.maxkeys && self.qnbytes + description_len + 1 + payload_len
            <= self.maxbytes
    }

    /// Whether a payload of the given length can fit the quota at all. A
    /// payload longer than the whole allowance cannot, whatever it replaces.
    pub open spec fn admits_payload(self, payload_len: int) -> bool {
        payload_len <= self.maxbytes
    }

    /// Whether the quota has room for one more key with a description and a
    /// payload of the given lengths.
    pub fn has_room_for_key(&self, description_len: usize, payload_len: usize) -> (room: bool)
        ensures
            room == self.admits_new_key(description_len as int, payload_len as int),
    {
        let keys: u128 = self.qnkeys as u128 + 1;
        let bytes: u128 = self.qnbytes as u128 + description_len as u128 + 1 + payload_len as u128;
        keys <= self.maxkeys as u128 && bytes <= self.maxbytes as u128
    }

    /// Whether a payload of the given length can fit the quota at all.
    pub fn has_room_for_payload(&self, payload_len: usize) -> (room: bool)
        ensures
            room == self.admits_payload(payload_len as int),
    {
        payload_len <= self.maxbytes
    }
}

/// What is known of the running system.
#[derive(Clone, Copy, Debug, PartialEq, Eq, Structural, Hash)]
pub struct Environment {
    pub version: KernelVersion,
    pub page_size: usize,
    pub quota: KeyQuota,
}

impl Environment {
    /// The longest description a key can have: a page less the terminator
    /// that the kernel appends.
    pub open spec fn max_description_len(self) -> int {
        self.page_size - 1
    }

    /// The longest payload of a page-bounded key type: a page less the
    /// kernel's header, and nothing where the page is smaller than that.
    pub open spec fn max_payload_len(self) -> int {
        if self.page_size >= PAYLOAD_RESERVE {
            self.page_size - PAYLOAD_RESERVE
        } else {
            0
        }
    }

    /// Whether the kernel can invalidate a key.
    pub open spec fn supports_invalidate(self) -> bool {
        self.version.at_least(INVALIDATE_MAJOR, INVALIDATE_MINOR)
    }

    /// Whether a description of the given length fits.
    pub fn description_fits(&self, len: usize) -> (fits: bool)
        ensures
            fits == (len <= self.max_description_len()),
    {
        len < self.page_size
    }

    /// Whether a payload of the given length fits a page-bounded key type.
    pub fn payload_fits(&self, len: usize) -> (fits: bool)
        ensures
            fits == (len <= self.max_payload_len()),
    {
        if self.page_size >= PAYLOAD_RESERVE {
            len <= self.page_size - PAYLOAD_RESERVE
        } else {
            len == 0
        }
    }

    /// Whether the kernel can invalidate a key.
    pub fn can_invalidate(&self) -> (can: bool)
        ensures
            can == self.supports_invalidate(),
    {
        self.version.is_at_least(INVALIDATE_MAJOR, INVALIDATE_MINOR)
    }
}

} // verus!
