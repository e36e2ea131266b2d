//! Pending call registry: a mapping from an opaque, foreign-issued call
//! handle to the pending entry registered for it — the result kind the
//! completed payload must be decoded under, and a token naming the host
//! callback that the outcome is owed to.  An entry is inserted once at
//! registration and removed exactly once when the dispatcher takes it;
//! a handle whose entry has been taken can never be dispatched again.

use std::collections::HashMap;
use vstd::prelude::*;

verus! {

broadcast use vstd::std_specs::hash::group_hash_axioms;

/// Names one host-supplied completion callback.  The bridge never runs the
/// callback itself; it decides which token's callback must fire and with
/// what outcome, and the unverified shell keeps the token-to-closure table.
#[derive(Clone, Copy, PartialEq, Eq, Structural, Debug, Hash)]
pub struct CallbackToken(pub u64);

/// One registered pending call: the result kind its payload decodes under
/// and the callback the outcome belongs to.  Owned by the registry from
/// registration until the dispatcher takes it.
#[derive(Clone, Copy, PartialEq, Eq, Structural, Debug)]
pub struct PendingCall {
    /// Decoder-table kind the completed payload is expected to carry.
    pub kind: u32,
    /// Callback owed the eventual outcome, exactly once.
    pub callback: CallbackToken,
}

/// A second registration for a handle that is still pending.  The first
/// entry is kept: silently overwriting it would lose a callback with no
/// notification to anyone.
#[derive(Clone, Copy, PartialEq, Eq, Structural, Debug)]
pub enum RegisterError {
    DuplicateHandle,
}

/// Mapping from outstanding call handles to their pending entries.
pub struct PendingRegistry {
    entries: HashMap<u64, PendingCall>,
}

impl View for PendingRegistry {
    type V = Map<u64, PendingCall>;

    closed spec fn view(&self) -> Map<u64, PendingCall> {
        self.entries@
    }
}

impl PendingRegistry {
    /// An empty registry: no handle is outstanding.
    pub fn new() -> (r: Self)
        ensures
            r@ == Map::<u64, PendingCall>::empty(),
    {
        PendingRegistry { entries: HashMap::new() }
    }

    /// Number of outstanding handles.
    pub fn len(&self) -> (n: usize)
        ensures
            n == self@.len(),
    {
        self.entries.len()
    }

    /// Whether `handle` is currently registered.
    pub fn contains(&self, handle: u64) -> (b: bool)
        ensures
            b == self@.contains_key(handle),
    {
        self.entries.contains_key(&handle)
    }

    /// Inserts a new pending entry for `handle`.  A handle already
    /// registered is rejected — the same foreign operation was registered
    /// twice, a caller bug — and the registry is left unchanged; otherwise
    /// exactly the one new entry is added.
    pub fn register(&mut self, handle: u64, kind: u32, callback: CallbackToken) -> (r: Result<
        (),
        RegisterError,
    >)
        ensures
            old(self)@.contains_key(handle) ==> r == Err::<(), RegisterError>(
                RegisterError::DuplicateHandle,
            ) && final(self)@ == old(self)@,
            !old(self)@.contains_key(handle) ==> r == Ok::<(), RegisterError>(()) && final(self)@
                == old(self)@.insert(handle, PendingCall { kind, callback }),
    {
        if self.entries.contains_key(&handle) {
            Err(RegisterError::DuplicateHandle)
        } else {
            self.entries.insert(handle, PendingCall { kind, callback });
            Ok(())
        }
    }

    /// Atomically removes and returns the entry for `handle`, or reports
    /// absence.  After a successful take the handle is no longer
    /// registered, so a given entry can be taken at most once.
    pub fn take(&mut self, handle: u64) -> (r: Option<PendingCall>)
        ensures
            final(self)@ == old(self)@.remove(handle),
            old(self)@.contains_key(handle) ==> r == Some(old(self)@[handle]),
            !old(self)@.contains_key(handle) ==> r is None,
    {
        self.entries.remove(&handle)
    }
}

} // verus!
