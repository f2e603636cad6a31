//! The type-erasure boundary: capability narrowing.
//!
//! A consumer that should only use results must not be able to mint new
//! family members. Erasing an instance into a [`Capability`] keeps the
//! payload (and, physically, the link inside it) but exposes value access
//! only: there is no `clone` and no `family` on a capability, and no way to
//! widen it back into a family-aware instance. The narrowing is one-way and
//! enforced by construction — the operations simply do not exist.

use vstd::prelude::*;

use crate::object::Linked;

verus! {

/// A type-erased view of an instance: the payload can be read and written,
/// and nothing else. The link is still carried inside, but no operation
/// reaches it.
#[verifier::reject_recursive_types(T)]
pub struct Capability<T, F: Fn() -> T> {
    inner: Linked<T, F>,
}

impl<T, F: Fn() -> T> Capability<T, F> {
    /// The payload the capability gives access to.
    pub closed spec fn payload(self) -> T {
        self.inner.payload()
    }

    /// Erases an instance into a capability: the payload is kept as it is;
    /// the power to clone or to reach the family is dropped for good.
    pub fn erase(instance: Linked<T, F>) -> (c: Capability<T, F>)
        ensures
            c.payload() == instance.payload(),
    {
        Capability { inner: instance }
    }

    /// Read access to the payload.
    pub fn value(&self) -> (v: &T)
        ensures
            *v == self.payload(),
    {
        self.inner.value()
    }

    /// Write access to the payload.
    pub fn value_mut(&mut self) -> (v: &mut T)
        ensures
            *v == old(self).payload(),
            final(self).payload() == *final(v),
    {
        self.inner.value_mut()
    }
}

} // verus!
