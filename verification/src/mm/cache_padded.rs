//! Wrappers for values meant to sit on a cache line of their own. The
//! layout attributes that would pad and align them to 64 bytes are not
//! part of this library; the wrappers only hold and hand out the value.

use vstd::prelude::*;

verus! {

/// A value meant to sit on a 64-byte cache line of its own.
pub struct CachePadded<T> {
    value: T,
}

impl<T> CachePadded<T> {
    /// The wrapped value.
    pub closed spec fn value_spec(&self) -> T {
        self.value
    }

    /// Wraps a value (no padding or alignment is applied).
    pub fn new(t: T) -> (r: CachePadded<T>)
        ensures
            r.value_spec() == t,
    {
        CachePadded { value: t }
    }

    /// The padded value.
    pub fn get(&self) -> (r: &T)
        ensures
            *r == self.value_spec(),
    {
        &self.value
    }

    /// The padded value, for changing it.
    pub fn get_mut(&mut self) -> (r: &mut T)
        ensures
            *r == old(self).value_spec(),
            final(self).value_spec() == *final(r),
    {
        &mut self.value
    }
}

/// Wrapper meant to keep its content on a cache line of its own.
pub struct CacheAligned<T> {
    value: T,
}

impl<T> CacheAligned<T> {
    /// The aligned value.
    pub closed spec fn value_spec(&self) -> T {
        self.value
    }

    /// Wraps a value (no padding or alignment is applied).
    pub fn new(t: T) -> (r: CacheAligned<T>)
        ensures
            r.value_spec() == t,
    {
        CacheAligned { value: t }
    }

    /// The aligned value.
    pub fn get(&self) -> (r: &T)
        ensures
            *r == self.value_spec(),
    {
        &self.value
    }

    /// The aligned value, for changing it.
    pub fn get_mut(&mut self) -> (r: &mut T)
        ensures
            *r == old(self).value_spec(),
            final(self).value_spec() == *final(r),
    {
        &mut self.value
    }
}

} // verus!
