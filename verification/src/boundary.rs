//! The foreign-call boundary: opaque handles instead of raw pointers.
//!
//! Buffers that cross the boundary are kept in a table that maps integer
//! handles to owned entries. Handing a buffer out means handing out its
//! handle; releasing it means removing the entry, so a second release of the
//! same handle is a reported error rather than undefined behaviour, and a
//! read after release finds nothing. Errors cross the boundary as integer
//! status codes, and truth values as `1`/`0`, never as a language-native
//! boolean or an exception.

use vstd::prelude::*;
use vstd::pervasive::VecAdditionalExecFns;

use crate::crypto::{
    generate_key_pair, hmac_sha3_256_of, verify_accepts, verify_signature as check_tag, EntropyError,
    KeyPair,
};

verus! {

/// The status code of an operation that succeeded.
pub const STATUS_OK: i32 = 0;

/// The status code reported when a handle does not name a live entry of the
/// expected kind.
pub const STATUS_BAD_HANDLE: i32 = 1;

/// The status code reported for an invalid raw buffer argument: a null
/// pointer paired with a nonzero length (see `buffer_arg_valid`).
pub const STATUS_INVALID_BUFFER: i32 = 2;

/// One owned allocation of the boundary: either a key pair or a tag buffer.
pub enum BoundaryEntry {
    Key(KeyPair),
    Tag(Vec<u8>),
}

/// The table of live boundary allocations. A handle is an index into the
/// table; a freed slot stays `None`, so handles are never reused within one
/// table and a stale handle can only miss.
pub struct HandleTable {
    slots: Vec<Option<BoundaryEntry>>,
}

impl HandleTable {
    /// The slots as they stand: one entry per handle ever issued, `None`
    /// where the entry has been released.
    pub closed spec fn view(&self) -> Seq<Option<BoundaryEntry>> {
        self.slots@
    }

    /// Whether `handle` names a live key-pair entry.
    pub open spec fn is_live_key(&self, handle: usize) -> bool {
        &&& handle < self.view().len()
        &&& self.view()[handle as int] matches Some(BoundaryEntry::Key(_))
    }

    /// Whether `handle` names a live tag entry.
    pub open spec fn is_live_tag(&self, handle: usize) -> bool {
        &&& handle < self.view().len()
        &&& self.view()[handle as int] matches Some(BoundaryEntry::Tag(_))
    }

    /// A table with no live handles.
    pub fn new() -> (r: HandleTable)
        ensures
            r.view() == Seq::<Option<BoundaryEntry>>::empty(),
    {
        HandleTable { slots: Vec::new() }
    }

    /// Allocate a fresh key pair and hand its handle to the caller, who owns
    /// it until `free_key_pair`. Fails only when the entropy source does,
    /// leaving the table as it was.
    pub fn create_key_pair(&mut self) -> (r: Result<usize, EntropyError>)
        ensures
            match r {
                Ok(handle) => {
                    &&& handle == old(self).view().len()
                    &&& final(self).view().len() == old(self).view().len() + 1
                    &&& forall|j: int|
                        0 <= j < old(self).view().len() ==> final(self).view()[j] == old(
                            self,
                        ).view()[j]
                    &&& final(self).view()[handle as int] matches Some(BoundaryEntry::Key(kp))
                        && kp.wf()
                },
                Err(_) => final(self).view() == old(self).view(),
            },
    {
        match generate_key_pair() {
            Ok(kp) => {
                let handle = self.slots.len();
                self.slots.push(Some(BoundaryEntry::Key(kp)));
                Ok(handle)
            },
            Err(e) => Err(e),
        }
    }

    /// Release the key pair behind `handle`. The secret bytes are wiped
    /// before the buffer is dropped. Returns `STATUS_OK` exactly when the
    /// handle named a live key pair, which is then gone; any other handle —
    /// already freed, out of range, or naming a tag — leaves the table
    /// unchanged and reports `STATUS_BAD_HANDLE`.
    pub fn free_key_pair(&mut self, handle: usize) -> (status: i32)
        ensures
            status == STATUS_OK || status == STATUS_BAD_HANDLE,
            (status == STATUS_OK) <==> old(self).is_live_key(handle),
            status == STATUS_OK ==> final(self).view() == old(self).view().update(
                handle as int,
                None,
            ),
            status != STATUS_OK ==> final(self).view() == old(self).view(),
    {
        if handle >= self.slots.len() {
            return STATUS_BAD_HANDLE;
        }
        let is_key = match &self.slots[handle] {
            Some(BoundaryEntry::Key(_)) => true,
            _ => false,
        };
        if !is_key {
            return STATUS_BAD_HANDLE;
        }
        let mut entry: Option<BoundaryEntry> = None;
        self.slots.set_and_swap(handle, &mut entry);
        match entry {
            Some(BoundaryEntry::Key(mut kp)) => {
                kp.wipe();
            },
            _ => (),
        }
        STATUS_OK
    }

    /// Compute the tag of `message` under `private_key`, keep it as a fresh
    /// boundary allocation, and hand its handle to the caller, who owns it
    /// until `free_signature`.
    pub fn sign_message(&mut self, message: &[u8], private_key: &[u8]) -> (handle: usize)
        ensures
            handle == old(self).view().len(),
            final(self).view().len() == old(self).view().len() + 1,
            forall|j: int|
                0 <= j < old(self).view().len() ==> final(self).view()[j] == old(self).view()[j],
            final(self).view()[handle as int] matches Some(BoundaryEntry::Tag(t)) && t@
                == hmac_sha3_256_of(private_key@, message@) && t@.len() == 32,
    {
        let tag = crate::crypto::sign_message(message, private_key);
        let handle = self.slots.len();
        self.slots.push(Some(BoundaryEntry::Tag(tag)));
        handle
    }

    /// Release the tag buffer behind `handle`. Returns `STATUS_OK` exactly
    /// when the handle named a live tag, which is then gone; any other
    /// handle leaves the table unchanged and reports `STATUS_BAD_HANDLE`.
    pub fn free_signature(&mut self, handle: usize) -> (status: i32)
        ensures
            status == STATUS_OK || status == STATUS_BAD_HANDLE,
            (status == STATUS_OK) <==> old(self).is_live_tag(handle),
            status == STATUS_OK ==> final(self).view() == old(self).view().update(
                handle as int,
                None,
            ),
            status != STATUS_OK ==> final(self).view() == old(self).view(),
    {
        if handle >= self.slots.len() {
            return STATUS_BAD_HANDLE;
        }
        let is_tag = match &self.slots[handle] {
            Some(BoundaryEntry::Tag(_)) => true,
            _ => false,
        };
        if !is_tag {
            return STATUS_BAD_HANDLE;
        }
        self.slots.set(handle, None);
        STATUS_OK
    }

    /// Read the key buffers behind a handle, without transferring ownership:
    /// the bytes of the public checksum and of the secret, or `None` for a
    /// handle that is not a live key pair.
    pub fn key_pair_bytes(&self, handle: usize) -> (r: Option<(&Vec<u8>, &Vec<u8>)>)
        ensures
            match r {
                Some(p) => self.is_live_key(handle) && (self.view()[handle as int] matches Some(
                    BoundaryEntry::Key(kp),
                ) && p.0 == kp.public_key && p.1 == kp.private_key),
                None => !self.is_live_key(handle),
            },
    {
        if handle >= self.slots.len() {
            return None;
        }
        match &self.slots[handle] {
            Some(BoundaryEntry::Key(kp)) => Some((&kp.public_key, &kp.private_key)),
            _ => None,
        }
    }

    /// Read the tag bytes behind a handle, without transferring ownership,
    /// or `None` for a handle that is not a live tag.
    pub fn tag_bytes(&self, handle: usize) -> (r: Option<&Vec<u8>>)
        ensures
            match r {
                Some(t) => self.is_live_tag(handle) && (self.view()[handle as int] matches Some(
                    BoundaryEntry::Tag(tag),
                ) && t == tag),
                None => !self.is_live_tag(handle),
            },
    {
        if handle >= self.slots.len() {
            return None;
        }
        match &self.slots[handle] {
            Some(BoundaryEntry::Tag(t)) => Some(t),
            _ => None,
        }
    }
}

/// The boundary's verdict on a signature: `1` when the tag is the one that
/// verification recomputes, else `0` — an integer, since the boundary has no
/// shared boolean representation.
pub fn verify_signature(message: &[u8], signature: &[u8], private_key: &[u8]) -> (r: i32)
    ensures
        r == 0 || r == 1,
        (r == 1) <==> verify_accepts(private_key@, message@, signature@),
{
    if check_tag(message, signature, private_key) {
        1
    } else {
        0
    }
}

/// The boundary's rule for a raw buffer argument: a null pointer is a valid
/// way to pass an empty buffer, and invalid with any nonzero length. The
/// unverified marshaling shim asks this before it builds a slice.
pub fn buffer_arg_valid(is_null: bool, len: usize) -> (r: bool)
    ensures
        r == (!is_null || len == 0),
{
    !is_null || len == 0
}

} // verus!
