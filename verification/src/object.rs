//! Instances and their lifecycle.
//!
//! An instance is an ordinary owned value augmented with a hidden [`Link`]
//! back to the family identity that produced it. Instances are minted only by
//! running the family's constructor recipe: producing from a handle, cloning
//! an existing instance (which re-runs the recipe rather than copying fields),
//! or consuming a handle into an instance.

use vstd::prelude::*;

use crate::family::Family;
use crate::family::same_family;

verus! {

/// The hidden back-reference inside every instance: a handle on the family
/// that produced it. It never changes for the instance's whole lifetime.
#[verifier::reject_recursive_types(T)]
pub struct Link<T, F: Fn() -> T> {
    family: Family<T, F>,
}

impl<T, F: Fn() -> T> Link<T, F> {
    /// The family this link points back to.
    pub closed spec fn family_of(self) -> Family<T, F> {
        self.family
    }

    /// Wires a link to the family an instance is being produced from.
    pub fn new(family: Family<T, F>) -> (l: Link<T, F>)
        ensures
            l.family_of() == family,
    {
        Link { family }
    }

    /// A fresh handle on the linked family; cheap and side-effect-free.
    pub fn family(&self) -> (h: Family<T, F>)
        ensures
            h == self.family_of(),
    {
        self.family.clone()
    }
}

/// One member of a family: an author-defined payload plus the hidden link.
#[verifier::reject_recursive_types(T)]
pub struct Linked<T, F: Fn() -> T> {
    value: T,
    link: Link<T, F>,
}

/// The relation between a family handle and any instance its `produce` (or a
/// clone within the family, or a consuming conversion) can return: the
/// instance's link points at exactly that family, and its payload is a
/// possible output of the family's constructor recipe.
pub open spec fn produces<T, F: Fn() -> T>(h: Family<T, F>, i: Linked<T, F>) -> bool {
    &&& i.family_of() == h
    &&& call_ensures(h.recipe(), (), i.payload())
}

impl<T, F: Fn() -> T> Linked<T, F> {
    /// The author-defined payload carried by this instance.
    pub closed spec fn payload(self) -> T {
        self.value
    }

    /// The family this instance belongs to, for its entire lifetime.
    pub closed spec fn family_of(self) -> Family<T, F> {
        self.link.family_of()
    }

    /// Read access to the payload.
    pub fn value(&self) -> (v: &T)
        ensures
            *v == self.payload(),
    {
        &self.value
    }

    /// Write access to the payload. The link is untouched: an instance never
    /// migrates to a different family.
    pub fn value_mut(&mut self) -> (v: &mut T)
        ensures
            *v == old(self).payload(),
            final(self).payload() == *final(v),
            final(self).family_of() == old(self).family_of(),
    {
        &mut self.value
    }

    /// A handle sharing identity with this instance's link; cheap and
    /// side-effect-free, and never a new family member.
    pub fn family(&self) -> (h: Family<T, F>)
        ensures
            h == self.family_of(),
    {
        self.link.family()
    }
}

impl<T, F: Fn() -> T> Family<T, F> {
    /// Invokes the constructor recipe exactly once and returns a new instance
    /// whose link points at this identity. A panic inside the recipe
    /// propagates to the caller and leaves the family identity intact.
    pub fn produce(&self) -> (i: Linked<T, F>)
        ensures
            produces(*self, i),
    {
        let value = self.run_recipe();
        Linked { value, link: Link::new(self.clone()) }
    }

    /// The consuming conversion from handle to instance: exactly one
    /// `produce` from the handle being consumed.
    pub fn into_instance(self) -> (i: Linked<T, F>)
        ensures
            produces(self, i),
    {
        self.produce()
    }
}

impl<T, F: Fn() -> T> Clone for Linked<T, F> {
    /// Produces a new, independent instance of the *same* family by re-running
    /// the constructor recipe — never a field-wise copy of this instance's
    /// payload, which may hold exclusive resources.
    fn clone(&self) -> (r: Self)
        ensures
            produces(self.family_of(), r),
    {
        let h = self.link.family();
        h.produce()
    }
}

/// Law: an instance produced from a handle is identity-equal to that handle —
/// for every handle `h`, `h.produce().family()` names the same family as `h`.
pub proof fn lemma_produced_instance_family<T, F: Fn() -> T>(h: Family<T, F>, i: Linked<T, F>)
    requires
        produces(h, i),
    ensures
        same_family(i.family_of(), h),
{
}

/// Law: cloning stays within the family — whenever `j` is a possible result
/// of `i.clone()`, `j.family()` is identity-equal to `i.family()`.
pub proof fn lemma_clone_preserves_family<T, F: Fn() -> T>(i: Linked<T, F>, j: Linked<T, F>)
    requires
        produces(i.family_of(), j),
    ensures
        same_family(j.family_of(), i.family_of()),
{
}

/// Law: producing twice from one handle (bypassing any cache) yields two
/// instances that both start from the recipe's initial value and share the
/// family. The recipe is pinned here to a deterministic one — every possible
/// output equals `initial` — which is what "the recipe's initial value" means.
pub proof fn lemma_produce_twice_independent<T, F: Fn() -> T>(
    h: Family<T, F>,
    first: Linked<T, F>,
    second: Linked<T, F>,
    initial: T,
)
    requires
        produces(h, first),
        produces(h, second),
        forall|v: T| call_ensures(h.recipe(), (), v) ==> v == initial,
    ensures
        first.payload() == initial,
        second.payload() == initial,
        same_family(first.family_of(), second.family_of()),
{
}

} // verus!
