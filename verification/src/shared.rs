//! The reference count of an object that several threads hold at once.

use std::sync::atomic::{AtomicU32, Ordering};
use vstd::prelude::*;
use crate::refcount::{acquired, released, Disposal};

verus! {

/// Calls `std::sync::atomic::fence` with acquire ordering. A fence has no
/// result and changes no value that the program can name, so nothing is
/// claimed of it.
#[verifier::external_body]
fn fence_acquire() {
    std::sync::atomic::fence(Ordering::Acquire);
}

/// An atomic reference count, shared by every holder of one object.
///
/// Any thread may acquire or release at any time, so no call can say what
/// the count is: each reports the value that its own step left, as
/// [`acquired`] and [`released`] define it.
pub struct SharedCount {
    count: AtomicU32,
}

impl SharedCount {
    /// The count of a fresh object: its creator is its first holder.
    pub fn new() -> (count: SharedCount) {
        SharedCount { count: AtomicU32::new(1) }
    }

    /// Takes one more reference and returns the count that this step left.
    ///
    /// The increment is relaxed: the caller holds a reference already, so
    /// the object cannot be destroyed under it.
    pub fn acquire(&self) -> (count: u32) {
        let prev = self.count.fetch_add(1, Ordering::Relaxed);
        acquired(prev)
    }

    /// Gives one reference back. Returns the count that this step left,
    /// and whether the caller now has to reclaim the object's storage.
    ///
    /// The decrement has release ordering. The one release that is told to
    /// destroy has passed an acquire fence first, so it sees everything
    /// that the other holders wrote before they let go.
    pub fn release(&self) -> (outcome: (u32, Disposal))
        ensures
            outcome.1 == Disposal::Destroy <==> outcome.0 == 0,
    {
        let prev = self.count.fetch_sub(1, Ordering::Release);
        let outcome = released(prev);
        match outcome.1 {
            Disposal::Destroy => {
                fence_acquire();
            },
            Disposal::Keep => {},
        }
        outcome
    }
}

} // verus!
