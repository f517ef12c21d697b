//! Single-owner heap storage: an owning box that guarantees exactly one
//! destruction of its contained value, together with a typed handle for the
//! release/reclaim escape hatch.
//!
//! Ownership here rests on move semantics: moving a box or a handle transfers
//! the value and invalidates the previous holder, so the contained value is
//! dropped exactly once unless it is explicitly moved out (`unbox`) or
//! released (`intoRaw`). The contracts pin down that every such transfer
//! carries the value unchanged.

use vstd::prelude::*;

verus! {

/// The raw-ownership handle: holds a value released from a `Box` without the
/// box's interface. Reclaiming it (`Box::fromRaw`) restores the owning box.
pub struct Unique<T> {
    v: T,
}

impl<T> View for Unique<T> {
    type V = T;

    closed spec fn view(&self) -> T {
        self.v
    }
}

impl<T> Unique<T> {
    /// Wraps `v` in a handle.
    pub fn new(v: T) -> (r: Self)
        ensures
            r@ == v,
    {
        Unique { v }
    }

    /// Read access to the held value.
    pub fn getPtr(&self) -> (r: &T)
        ensures
            *r == self@,
    {
        &self.v
    }

    /// Write access to the held value.
    pub fn getMutPtr(&mut self) -> (r: &mut T)
        ensures
            *r == old(self)@,
            final(self)@ == *final(r),
    {
        &mut self.v
    }
}

/// A single-owner box: wraps exactly one value; moving the box transfers
/// ownership, and dropping it drops the contained value exactly once.
pub struct Box<T> {
    uptr: Unique<T>,
}

impl<T> View for Box<T> {
    type V = T;

    closed spec fn view(&self) -> T {
        self.uptr@
    }
}

impl<T> Box<T> {
    /// Places `x` into a fresh box.
    pub fn new(x: T) -> (r: Self)
        ensures
            r@ == x,
    {
        Box { uptr: Unique::new(x) }
    }

    /// Exposes the contained value without transferring ownership.
    pub fn asRef(&self) -> (r: &T)
        ensures
            *r == self@,
    {
        self.uptr.getPtr()
    }

    /// Exposes the contained value of an exclusively held box.
    pub fn asMut(&mut self) -> (r: &T)
        ensures
            *r == old(self)@,
            final(self)@ == old(self)@,
    {
        self.uptr.getPtr()
    }

    /// Releases ownership: consumes the box and hands the value on as a raw
    /// handle, without destructing it. The caller now owns the handle.
    pub fn intoRaw(self) -> (r: Unique<T>)
        ensures
            r@ == self@,
    {
        self.uptr
    }

    /// Reclaims a previously released handle as an owning box.
    pub fn fromRaw(raw: Unique<T>) -> (r: Self)
        ensures
            r@ == raw@,
    {
        Box { uptr: raw }
    }

    /// Consumes the box and moves the value out; the moved-out value is not
    /// destructed by the box.
    pub fn unbox(self) -> (r: T)
        ensures
            r == self@,
    {
        let Box { uptr: Unique { v } } = self;
        v
    }
}

} // verus!
