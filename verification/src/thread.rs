//! Shared cells for state that the interface writes and the transmission
//! worker reads: a reference-counted reader/writer lock, and a read-only
//! handle on it that can be handed to the worker.

use vstd::prelude::*;
use vstd::rwlock::RwLock;
use std::sync::Arc;

verus! {

/// Relies on `Arc::clone`: the clone is a handle to the same allocation,
/// so it carries the same value.
#[verifier::external_body]
fn share<T>(arc: &Arc<T>) -> (r: Arc<T>)
    ensures
        r == *arc,
{
    Arc::clone(arc)
}

/// A cell holding one value behind a reader/writer lock: any number of
/// concurrent readers, or a single writer, and the value is always
/// observed as a whole. Handles created by [`ArcRwLock::read_only`] share
/// the same cell.
///
/// The cell itself places no constraint on the stored value and promises
/// nothing about what a read returns: other holders of the cell may have
/// written to it in the meantime. Callers that need to know the contents
/// keep their own record of what they last wrote.
#[verifier::reject_recursive_types(T)]
pub struct ArcRwLock<T> {
    inner: Arc<RwLock<T, spec_fn(T) -> bool>>,
}

/// A handle on an [`ArcRwLock`] cell that can only read it.
#[verifier::reject_recursive_types(T)]
pub struct ReadOnly<T> {
    inner: Arc<RwLock<T, spec_fn(T) -> bool>>,
}

impl<T> ArcRwLock<T> {
    /// The lock accepts every value of `T`, so a writer is never
    /// constrained by it.
    pub closed spec fn wf(&self) -> bool {
        forall|v: T| (*self.inner).inv(v)
    }

    /// Creates a new shared cell holding `val`.
    pub fn new(val: T) -> (s: Self)
        ensures
            s.wf(),
    {
        let inner = Arc::new(RwLock::new(val, Ghost(|v: T| true)));
        let s = ArcRwLock { inner };
        proof {
            assert forall|v: T| (*s.inner).inv(v) by {}
        }
        s
    }

    /// Replaces the stored value with `val`, taking the writer side of the
    /// lock for the duration of the swap.
    pub fn write(&self, val: T)
        requires
            self.wf(),
    {
        let (_old_val, handle) = (*self.inner).acquire_write();
        handle.release_write(val);
    }

    /// Reads the stored value under the reader side of the lock.
    pub fn read(&self) -> T where T: Copy {
        let handle = (*self.inner).acquire_read();
        let val: T = *handle.borrow();
        handle.release_read();
        val
    }

    /// Creates a read-only handle on the same cell.
    pub fn read_only(&self) -> (r: ReadOnly<T>)
        ensures
            self.wf() ==> r.wf(),
    {
        ReadOnly { inner: share(&self.inner) }
    }
}

impl<T> ReadOnly<T> {
    /// The lock behind the handle accepts every value of `T`.
    pub closed spec fn wf(&self) -> bool {
        forall|v: T| (*self.inner).inv(v)
    }

    /// Reads the stored value under the reader side of the lock.
    pub fn read(&self) -> T where T: Copy {
        let handle = (*self.inner).acquire_read();
        let val: T = *handle.borrow();
        handle.release_read();
        val
    }
}

} // verus!
