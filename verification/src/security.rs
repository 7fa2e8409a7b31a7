//! Storage for secret material: buffers that are wiped when they are dropped.
//! Raw key bytes are additionally locked into RAM (best effort) so the OS does
//! not page them out to swap.

use vstd::prelude::*;
use zeroize::Zeroize;

verus! {

#[verifier::external_type_specification]
#[verifier::external_body]
pub struct ExLockGuard(region::LockGuard);

/// Calls `region::lock` on the pages that hold `bytes`. Whether the operating
/// system grants the lock depends on the machine, so nothing is claimed of a
/// granted lock; the crate's source rejects a zero-sized range, so an empty
/// buffer is never locked.
#[verifier::external_body]
fn lock_in_ram(bytes: &Vec<u8>) -> (guard: Option<region::LockGuard>)
    ensures
        bytes@.len() == 0 ==> guard is None,
{
    region::lock(bytes.as_ptr(), bytes.len()).ok()
}

/// Calls `Zeroize::zeroize` of the `zeroize` crate on a byte vector: every
/// byte and the spare capacity are overwritten with zeros and the length is
/// set to zero.
#[verifier::external_body]
fn wipe_bytes(bytes: &mut Vec<u8>)
    ensures
        final(bytes)@ == Seq::<u8>::empty(),
    opens_invariants none
    no_unwind
{
    bytes.zeroize();
}

/// Calls `Zeroize::zeroize` of the `zeroize` crate on a string: its buffer is
/// overwritten with zeros and the string is left empty.
#[verifier::external_body]
pub(crate) fn wipe_string(text: &mut String)
    ensures
        final(text)@ == Seq::<char>::empty(),
    opens_invariants none
    no_unwind
{
    text.zeroize();
}

/// A heap-allocated secret that is zeroized on drop and locked into RAM.
pub struct SecretBytes {
    bytes: Vec<u8>,
    /// Page lock for `bytes`; dropping it unlocks the region.
    lock: Option<region::LockGuard>,
}

impl View for SecretBytes {
    type V = Seq<u8>;

    closed spec fn view(&self) -> Seq<u8> {
        self.bytes@
    }
}

impl SecretBytes {
    /// Whether the buffer's pages are locked into physical RAM.
    pub closed spec fn locked(&self) -> bool {
        self.lock is Some
    }

    /// Take ownership of `bytes`, attempting to lock its pages into RAM. The
    /// lock is best effort; `is_locked` reports the result.
    pub fn new(bytes: Vec<u8>) -> (s: Self)
        ensures
            s@ == bytes@,
            bytes@.len() == 0 ==> !s.locked(),
    {
        let lock = if bytes.len() == 0 {
            None
        } else {
            // `bytes` is never grown, so the locked pages stay those of its
            // buffer until the guard is dropped.
            lock_in_ram(&bytes)
        };
        Self::with_lock(bytes, lock)
    }

    /// Holds `bytes` together with `lock`, the outcome of locking their pages
    /// into RAM (`None` when no lock was obtained); the secret reports itself
    /// locked exactly when a guard was obtained.
    pub fn with_lock(bytes: Vec<u8>, lock: Option<region::LockGuard>) -> (s: Self)
        ensures
            s@ == bytes@,
            s.locked() == lock is Some,
    {
        SecretBytes { bytes, lock }
    }

    pub fn as_slice(&self) -> (s: &[u8])
        ensures
            s@ == self@,
    {
        self.bytes.as_slice()
    }

    pub fn len(&self) -> (n: usize)
        ensures
            n == self@.len(),
    {
        self.bytes.len()
    }

    /// Whether the buffer is locked into physical RAM.
    pub fn is_locked(&self) -> (b: bool)
        ensures
            b == self.locked(),
    {
        self.lock.is_some()
    }
}

impl Drop for SecretBytes {
    fn drop(&mut self)
        opens_invariants none
        no_unwind
    {
        // Wipe the secret; the lock guard then drops, unlocking the pages.
        wipe_bytes(&mut self.bytes);
    }
}

/// Text derived from secret material (such as a key in hex), wiped when
/// dropped so it never lingers in freed heap memory.
pub struct SecretText {
    text: String,
}

impl View for SecretText {
    type V = Seq<char>;

    closed spec fn view(&self) -> Seq<char> {
        self.text@
    }
}

impl SecretText {
    pub fn new(text: String) -> (s: Self)
        ensures
            s@ == text@,
    {
        SecretText { text }
    }

    pub fn as_str(&self) -> (s: &str)
        ensures
            s@ == self@,
    {
        self.text.as_str()
    }
}

impl Drop for SecretText {
    fn drop(&mut self)
        opens_invariants none
        no_unwind
    {
        wipe_string(&mut self.text);
    }
}

} // verus!
