//! A dead-simple memoization cell for a derived result.
//!
//! The cell either holds a value or is empty ("invalid").  `get_or_init`
//! returns the held value if there is one and otherwise runs the supplied
//! computation exactly once, stores its result, and returns it; within one
//! validity window the stored value therefore never changes.

use vstd::prelude::*;

verus! {

/// A memoization cell: `Some` while valid, `None` after invalidation.
pub struct Cache<T> {
    data: Option<T>,
}

impl<T> Cache<T> {
    /// The cached value, if the cache is currently valid.
    pub closed spec fn spec_data(self) -> Option<T> {
        self.data
    }

    /// Whether the cache currently holds a value.
    pub open spec fn spec_is_valid(self) -> bool {
        self.spec_data() is Some
    }

    /// A cache that starts out valid, holding `data`.
    pub fn new(data: T) -> (r: Self)
        ensures
            r.spec_data() == Some(data),
    {
        Self { data: Some(data) }
    }

    /// Returns the cached value, running `init` to produce and store one
    /// only if the cache is invalid.  A valid cache is left untouched, so
    /// repeated calls without an intervening `invalidate` all return the
    /// same value and only the first can compute.
    pub fn get_or_init<F: FnOnce() -> T>(&mut self, init: F) -> (r: &T)
        requires
            !old(self).spec_is_valid() ==> call_requires(init, ()),
        ensures
            final(self).spec_is_valid(),
            old(self).spec_is_valid() ==> final(self).spec_data() == old(self).spec_data(),
            !old(self).spec_is_valid() ==> call_ensures(init, (), *r),
            final(self).spec_data() == Some(*r),
    {
        if self.data.is_none() {
            let v = init();
            self.data = Some(v);
        }
        self.data.as_ref().unwrap()
    }

    /// Discards any stored value; idempotent.
    pub fn invalidate(&mut self)
        ensures
            final(self).spec_data() is None,
    {
        self.data = None;
    }

    /// Whether a stored value is present.
    pub fn is_valid(&self) -> (r: bool)
        ensures
            r == self.spec_is_valid(),
    {
        self.data.is_some()
    }
}

impl<T> Default for Cache<T> {
    /// A cache that starts out empty.
    fn default() -> (r: Self)
        ensures
            r.spec_data() is None,
    {
        Self { data: None }
    }
}

} // verus!
