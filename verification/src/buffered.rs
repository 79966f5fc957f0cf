//! A double-buffered value: writers update the current value at any rate,
//! readers see the value as of the last commit.
//!
//! The editor uses this for the error display: the most recent delivered
//! error is retained and shown until a periodic tick commits a newer one, so
//! the display does not flicker while results race in.

use vstd::prelude::*;

verus! {

/// A value with a committed copy: `set` writes, `get` reads the committed
/// copy, `commit` promotes the current value.
pub struct Buffered<T: Clone> {
    current: T,
    cached: T,
}

impl<T: Clone> Buffered<T> {
    /// The value writers have last set.
    pub closed spec fn current_spec(&self) -> T {
        self.current
    }

    /// The value readers observe.
    pub closed spec fn cached_spec(&self) -> T {
        self.cached
    }

    /// Both buffers start at `init`.
    pub fn new(init: T) -> (r: Self)
        ensures
            r.current_spec() == init,
            cloned(init, r.cached_spec()),
    {
        Buffered { cached: init.clone(), current: init }
    }

    /// Replaces the current value; the committed copy is untouched.
    pub fn set(&mut self, value: T)
        ensures
            final(self).current_spec() == value,
            final(self).cached_spec() == old(self).cached_spec(),
    {
        self.current = value;
    }

    /// Reads the committed copy.
    pub fn get(&self) -> (r: T)
        ensures
            cloned(self.cached_spec(), r),
    {
        self.cached.clone()
    }

    /// Promotes the current value to the committed copy.
    pub fn commit(&mut self)
        ensures
            cloned(old(self).current_spec(), final(self).cached_spec()),
            final(self).current_spec() == old(self).current_spec(),
    {
        self.cached = self.current.clone();
    }
}

} // verus!
