//! A shared, lock-guarded cell that the refresh path keeps in sync with a
//! watched file.
//!
//! The cell is built on vstd's verified reader-writer lock, so mutual
//! exclusion needs no trust, and its lock invariant is the data invariant of
//! the design: the cell only ever holds the value it was seeded with or a
//! value that successfully parsed.  A reader can therefore never observe a
//! half-written or failed decode.

use vstd::prelude::*;
use vstd::rwlock::{ReadHandle, RwLock, RwLockPredicate};
use std::sync::Arc;
use crate::error::ReadError;
use crate::format::FileFormat;
use crate::refresh::{refreshed, RefreshOutcome};
use crate::reload::{parses_to, Reloadable};

verus! {

/// Relies on `Arc::clone`: the documentation says it returns a new handle to
/// the same allocation, leaving the pointed-to value untouched.
#[verifier::external_body]
fn arc_clone<T>(v: &Arc<T>) -> (r: Arc<T>)
    ensures
        r == *v,
{
    Arc::clone(v)
}

/// The lock invariant of an [`AutoUpdated`] cell: every stored value is
/// either the seed value or the successful parse of some text.
pub struct Seeded<T> {
    pub initial: T,
}

impl<T: Reloadable> RwLockPredicate<T> for Seeded<T> {
    open spec fn inv(self, v: T) -> bool {
        v == self.initial || exists|format: FileFormat, text: Seq<char>|
            parses_to::<T>(format, text, v)
    }
}

/// A shared cell holding the last successfully parsed value of a watched
/// file.
///
/// Multiple holders (the caller and the refresh path) share ownership of the
/// same underlying cell; it is never left empty and never overwritten with a
/// failed decode.
pub struct AutoUpdated<T: Reloadable> {
    wrapped: Arc<RwLock<T, Seeded<T>>>,
}

impl<T: Reloadable> AutoUpdated<T> {
    /// The underlying lock-guarded cell this handle references.
    pub closed spec fn cell(&self) -> RwLock<T, Seeded<T>> {
        *self.wrapped
    }

    /// The value this cell was seeded with.
    pub closed spec fn seed(&self) -> T {
        self.cell().pred().initial
    }

    /// What a reader of this cell may observe: the seed value or some
    /// successfully parsed value.
    pub open spec fn can_hold(&self, v: T) -> bool {
        v == self.seed() || exists|format: FileFormat, text: Seq<char>|
            parses_to::<T>(format, text, v)
    }

    /// Make a fresh cell seeded with `wrapped`.
    pub fn new(wrapped: T) -> (r: Self)
        ensures
            r.seed() == wrapped,
    {
        let ghost initial = wrapped;
        AutoUpdated {
            wrapped: Arc::new(RwLock::new(wrapped, Ghost(Seeded { initial }))),
        }
    }

    /// Adopt an existing shared cell: the result references that very
    /// cell, not a copy.
    pub fn wrap(wrapped: Arc<RwLock<T, Seeded<T>>>) -> (r: Self)
        ensures
            r.cell() == *wrapped,
            r.seed() == (*wrapped).pred().initial,
    {
        AutoUpdated { wrapped }
    }

    /// A guarded read-view of the current value.  The caller must release the
    /// handle; the view is the seed value or some successful parse, never a
    /// half-written value.
    pub fn get(&self) -> (h: ReadHandle<'_, T, Seeded<T>>)
        ensures
            self.can_hold(h@),
    {
        (*self.wrapped).acquire_read()
    }

    /// Variant of [`Self::get`] for callers that only want a view when one
    /// can be had: meant to return `None` while the refresh path holds the
    /// cell, rather than wait.  The verified lock this cell is built on has
    /// no non-blocking acquire, so this version falls back to waiting like
    /// [`Self::get`]; a view it does hand out satisfies the cell invariant.
    pub fn try_get(&self) -> (h: Option<ReadHandle<'_, T, Seeded<T>>>)
        ensures
            h matches Some(handle) ==> self.can_hold(handle@),
    {
        Some((*self.wrapped).acquire_read())
    }

    /// A new owning handle referencing the same underlying cell, so that
    /// several parts of a program can observe the same live value: a
    /// refresh through any handle is seen through all of them.
    pub fn shared(&self) -> (r: Arc<RwLock<T, Seeded<T>>>)
        ensures
            *r == self.cell(),
            (*r).pred().initial == self.seed(),
    {
        arc_clone(&self.wrapped)
    }

    /// Apply a read-only function to the current value under the lock,
    /// without exposing the guard.
    pub fn with<F, R>(&self, f: F) -> (r: R) where F: FnOnce(&T) -> R
        requires
            forall|v: &T| self.can_hold(*v) ==> call_requires(f, (v,)),
        ensures
            exists|v: &T| self.can_hold(*v) && call_ensures(f, (v,), r),
    {
        let h = (*self.wrapped).acquire_read();
        let b = h.borrow();
        proof {
            assert(self.can_hold(*b));
        }
        let r = f(b);
        proof {
            assert(call_ensures(f, (b,), r));
        }
        h.release_read();
        r
    }

    /// Apply one refresh step to the cell: overwrite it with the decoded
    /// value when the read-and-decode succeeded, keep the current value on
    /// any failure.
    pub fn apply_refresh(&self, outcome: Result<T, ReadError>) -> (o: RefreshOutcome)
        requires
            outcome matches Ok(v) ==> self.can_hold(v),
        ensures
            o is Updated <==> outcome is Ok,
            o is KeptAfterIoError <==> (outcome matches Err(e) && e is Io),
            o is KeptAfterParseError <==> (outcome matches Err(e) && e is Parse),
    {
        let (current, write_handle) = (*self.wrapped).acquire_write();
        let (next, o) = refreshed(current, outcome);
        write_handle.release_write(next);
        o
    }
}

} // verus!
