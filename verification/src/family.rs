//! Family identity and family handles.
//!
//! A family is defined by an immutable record pairing a unique identity token
//! with a constructor recipe: a zero-argument factory producing one instance
//! payload. The record is shared (reference-counted) by every handle and
//! instance of the family; equality between handles is identity equality on
//! the token, never a structural comparison of produced values.

use core::marker::PhantomData;
use std::sync::Arc;
use vstd::prelude::*;

verus! {

/// Two handles denote the same family exactly when their identity tokens agree.
pub open spec fn same_family<T, F: Fn() -> T, G: Fn() -> T>(
    a: Family<T, F>,
    b: Family<T, G>,
) -> bool {
    a.id() == b.id()
}

/// A shareable handle on a family: an identity token plus the shared
/// constructor recipe. Cloning a handle shares the recipe and keeps the
/// identity; it never produces an instance.
#[verifier::reject_recursive_types(T)]
pub struct Family<T, F: Fn() -> T> {
    token: u64,
    recipe: Arc<F>,
    produced: PhantomData<T>,
}

impl<T, F: Fn() -> T> Family<T, F> {
    /// Every family's recipe is callable as a plain zero-argument factory;
    /// `create` demands it once, and every handle carries it from then on.
    #[verifier::type_invariant]
    spec fn recipe_callable(self) -> bool {
        call_requires(*self.recipe, ())
    }

    /// The identity token of this family.
    pub closed spec fn id(self) -> u64 {
        self.token
    }

    /// The constructor recipe shared by every handle and instance of this family.
    pub closed spec fn recipe(self) -> F {
        *self.recipe
    }

    /// Allocates a new family identity wrapping the given zero-argument
    /// factory. The caller supplies the identity token; a [`TokenSource`]
    /// hands out tokens that were never issued before. The factory must be
    /// callable unconditionally: it is the recipe every later `produce` runs.
    pub fn create(token: u64, recipe: F) -> (h: Family<T, F>)
        requires
            call_requires(recipe, ()),
        ensures
            h.id() == token,
            h.recipe() == recipe,
    {
        Family { token, recipe: Arc::new(recipe), produced: PhantomData }
    }

    /// Runs the constructor recipe once: the only way instances come to be.
    pub(crate) fn run_recipe(&self) -> (v: T)
        ensures
            call_ensures(self.recipe(), (), v),
    {
        proof {
            use_type_invariant(self);
        }
        (self.recipe)()
    }

    /// The identity token, for storage or display.
    pub fn token(&self) -> (t: u64)
        ensures
            t == self.id(),
    {
        self.token
    }

    /// Identity equality: true exactly when both handles come from the same
    /// `create` call (share one identity token).
    pub fn is_same_family<G: Fn() -> T>(&self, other: &Family<T, G>) -> (r: bool)
        ensures
            r == same_family(*self, *other),
    {
        self.token == other.token()
    }
}

impl<T, F: Fn() -> T> Clone for Family<T, F> {
    /// Returns an equal-identity handle sharing the same recipe; no instance
    /// is produced.
    fn clone(&self) -> (h: Self)
        ensures
            h == *self,
    {
        proof {
            use_type_invariant(self);
        }
        Family { token: self.token, recipe: Arc::clone(&self.recipe), produced: PhantomData }
    }
}

/// Law: family identity is an equivalence — reflexive, symmetric and
/// transitive. An instance cloned from another instance, produced from a
/// handle, or materialized in a thread's slot all compare identity-equal
/// through any chain of such steps.
pub proof fn lemma_same_family_equivalence<T, F: Fn() -> T, G: Fn() -> T, H: Fn() -> T>(
    a: Family<T, F>,
    b: Family<T, G>,
    c: Family<T, H>,
)
    ensures
        same_family(a, a),
        same_family(a, b) ==> same_family(b, a),
        same_family(a, b) && same_family(b, c) ==> same_family(a, c),
{
}

/// Hands out identity tokens, each distinct from every token it issued before.
pub struct TokenSource {
    next: u64,
}

impl TokenSource {
    /// The tokens issued so far are exactly those below this bound.
    pub closed spec fn issued_below(self) -> u64 {
        self.next
    }

    /// A source that has issued no token yet.
    pub fn new() -> (s: TokenSource)
        ensures
            s.issued_below() == 0,
    {
        TokenSource { next: 0 }
    }

    /// Issues a token distinct from every earlier one from this source.
    pub fn fresh(&mut self) -> (t: u64)
        requires
            old(self).issued_below() < u64::MAX,
        ensures
            t == old(self).issued_below(),
            final(self).issued_below() == t + 1,
    {
        let t = self.next;
        self.next = self.next + 1;
        t
    }
}

} // verus!
