//! A holder for a value that is set once, such as an address table.
use vstd::prelude::*;

verus! {

/// A value that is set once and read afterwards.
pub struct Holder<T> {
    inner: Option<T>,
}

impl<T> View for Holder<T> {
    type V = Option<T>;

    /// The value held, once set.
    closed spec fn view(&self) -> Option<T> {
        self.inner
    }
}

impl<T> Holder<T> {
    /// A holder with no value yet.
    pub fn new() -> (h: Holder<T>)
        ensures
            h@ is None,
    {
        Holder { inner: None }
    }

    /// Sets the value; it may be set only once.
    pub fn initialize(&mut self, t: T)
        requires
            old(self)@ is None,
        ensures
            final(self)@ == Some(t),
    {
        self.inner = Some(t);
    }

    /// Whether the value has been set.
    pub fn initialized(&self) -> (r: bool)
        ensures
            r == self@ is Some,
    {
        self.inner.is_some()
    }

    /// The value held; it must have been set.
    pub fn get(&self) -> (r: &T)
        requires
            self@ is Some,
        ensures
            Some(*r) == self@,
    {
        self.inner.as_ref().unwrap()
    }
}

} // verus!
