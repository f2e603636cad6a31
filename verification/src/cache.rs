//! Per-thread instance slots for a named family handle.
//!
//! [`InstanceCache`] is the indexed registry behind a named, process-wide
//! handle: keyed by thread identity, it lazily materializes one instance per
//! thread via the family's `produce` and thereafter hands back access to that
//! same stored instance. [`LazyFamily`] is the exactly-once initialization
//! slot for the family identity itself, so concurrent first touch cannot
//! double-construct it.

use vstd::prelude::*;

use crate::family::Family;
use crate::object::Linked;
use crate::object::produces;

verus! {

/// No two slots are keyed by the same thread.
spec fn distinct_keys<T, F: Fn() -> T>(s: Seq<(u64, Linked<T, F>)>) -> bool {
    forall|i: int, j: int| 0 <= i < j < s.len() ==> (#[trigger] s[i]).0 != (#[trigger] s[j]).0
}

/// The slots read as a map from thread key to cached instance.
spec fn slots_map<T, F: Fn() -> T>(s: Seq<(u64, Linked<T, F>)>) -> Map<u64, Linked<T, F>>
    decreases s.len(),
{
    if s.len() == 0 {
        Map::empty()
    } else {
        slots_map(s.drop_last()).insert(s.last().0, s.last().1)
    }
}

broadcast proof fn lemma_slots_map_push<T, F: Fn() -> T>(
    s: Seq<(u64, Linked<T, F>)>,
    p: (u64, Linked<T, F>),
)
    ensures
        #[trigger] slots_map(s.push(p)) == slots_map(s).insert(p.0, p.1),
{
    assert(s.push(p).drop_last() =~= s);
}

broadcast proof fn lemma_slots_map_index<T, F: Fn() -> T>(s: Seq<(u64, Linked<T, F>)>, i: int)
    requires
        distinct_keys(s),
        0 <= i < s.len(),
    ensures
        #![trigger slots_map(s), s[i]]
        slots_map(s).dom().contains(s[i].0) && slots_map(s)[s[i].0] == s[i].1,
    decreases s.len(),
{
    if s.len() > 0 && i < s.len() - 1 {
        lemma_slots_map_index(s.drop_last(), i);
    }
}

broadcast proof fn lemma_slots_map_dom<T, F: Fn() -> T>(s: Seq<(u64, Linked<T, F>)>, k: u64)
    requires
        #[trigger] slots_map(s).dom().contains(k),
    ensures
        exists|i: int| 0 <= i < s.len() && (#[trigger] s[i]).0 == k,
    decreases s.len(),
{
    if s.len() > 0 && s.last().0 != k {
        lemma_slots_map_dom(s.drop_last(), k);
        let i = choose|i: int| 0 <= i < s.drop_last().len() && (#[trigger] s.drop_last()[i]).0 == k;
        assert(s[i].0 == k);
    } else if s.len() > 0 {
        assert(s[s.len() - 1].0 == k);
    }
}

broadcast proof fn lemma_slots_map_update<T, F: Fn() -> T>(
    s: Seq<(u64, Linked<T, F>)>,
    i: int,
    p: (u64, Linked<T, F>),
)
    requires
        distinct_keys(s),
        0 <= i < s.len(),
        p.0 == s[i].0,
    ensures
        #[trigger] slots_map(s.update(i, p)) == slots_map(s).insert(p.0, p.1),
    decreases s.len(),
{
    let su = s.update(i, p);
    if i == s.len() - 1 {
        assert(su.drop_last() =~= s.drop_last());
        assert(slots_map(s).insert(p.0, p.1) =~= slots_map(su.drop_last()).insert(
            su.last().0,
            su.last().1,
        ));
    } else {
        assert(su.drop_last() =~= s.drop_last().update(i, p));
        lemma_slots_map_update(s.drop_last(), i, p);
        assert(su.last() == s.last());
        assert(slots_map(su.drop_last()).insert(su.last().0, su.last().1) =~= slots_map(
            s,
        ).insert(p.0, p.1));
    }
}

broadcast proof fn lemma_slots_map_remove<T, F: Fn() -> T>(s: Seq<(u64, Linked<T, F>)>, i: int)
    requires
        distinct_keys(s),
        0 <= i < s.len(),
    ensures
        #[trigger] slots_map(s.remove(i)) == slots_map(s).remove(s[i].0),
    decreases s.len(),
{
    broadcast use lemma_slots_map_dom;

    let sr = s.remove(i);
    if i == s.len() - 1 {
        assert(sr =~= s.drop_last());
        assert(slots_map(s).remove(s[i].0) =~= slots_map(s.drop_last()));
    } else {
        assert(sr.drop_last() =~= s.drop_last().remove(i));
        lemma_slots_map_remove(s.drop_last(), i);
        assert(sr.last() == s.last());
        assert(slots_map(sr.drop_last()).insert(sr.last().0, sr.last().1) =~= slots_map(
            s,
        ).remove(s[i].0));
    }
}

proof fn lemma_slots_map_card<T, F: Fn() -> T>(s: Seq<(u64, Linked<T, F>)>)
    requires
        distinct_keys(s),
    ensures
        slots_map(s).dom().finite(),
        slots_map(s).dom().len() == s.len(),
    decreases s.len(),
{
    if s.len() > 0 {
        lemma_slots_map_card(s.drop_last());
        if slots_map(s.drop_last()).dom().contains(s.last().0) {
            lemma_slots_map_dom(s.drop_last(), s.last().0);
            let i = choose|i: int|
                0 <= i < s.drop_last().len() && (#[trigger] s.drop_last()[i]).0 == s.last().0;
            assert(s[i].0 == s[s.len() - 1].0);
            assert(false);
        }
    }
}

/// The registry of per-thread instances behind one named family handle:
/// at most one slot per thread key, each holding an instance of that family.
#[verifier::reject_recursive_types(T)]
pub struct InstanceCache<T, F: Fn() -> T> {
    family: Family<T, F>,
    slots: Vec<(u64, Linked<T, F>)>,
}

impl<T, F: Fn() -> T> View for InstanceCache<T, F> {
    type V = Map<u64, Linked<T, F>>;

    /// The cache reads as a map from thread key to the instance stored for
    /// that thread.
    closed spec fn view(&self) -> Map<u64, Linked<T, F>> {
        slots_map(self.slots@)
    }
}

impl<T, F: Fn() -> T> InstanceCache<T, F> {
    /// Well-formed: one slot per thread at most, and every cached instance
    /// belongs to the cache's family.
    pub closed spec fn wf(self) -> bool {
        &&& distinct_keys(self.slots@)
        &&& forall|i: int|
            0 <= i < self.slots@.len() ==> (#[trigger] self.slots@[i]).1.family_of()
                == self.family
    }

    /// The family this cache materializes instances of.
    pub closed spec fn family_spec(self) -> Family<T, F> {
        self.family
    }

    /// How many times the constructor recipe has run on behalf of this cache:
    /// exactly one run per slot ever filled.
    pub closed spec fn constructions(self) -> nat {
        self.slots@.len()
    }

    /// An empty registry for the given family: no thread has touched it, and
    /// the constructor has not run.
    pub fn new(family: Family<T, F>) -> (c: Self)
        ensures
            c.wf(),
            c@ == Map::<u64, Linked<T, F>>::empty(),
            c.family_spec() == family,
            c.constructions() == 0,
    {
        InstanceCache { family, slots: Vec::new() }
    }

    /// A fresh handle on the cache's family.
    pub fn family(&self) -> (h: Family<T, F>)
        ensures
            h == self.family_spec(),
    {
        self.family.clone()
    }

    fn find_index(&self, thread: u64) -> (r: Option<usize>)
        ensures
            match r {
                Some(i) => i < self.slots@.len() && self.slots@[i as int].0 == thread,
                None => !(exists|i: int|
                    0 <= i < self.slots@.len() && (#[trigger] self.slots@[i]).0 == thread),
            },
    {
        let mut i: usize = 0;
        while i < self.slots.len()
            invariant
                i <= self.slots@.len(),
                forall|j: int| 0 <= j < i ==> (#[trigger] self.slots@[j]).0 != thread,
            decreases self.slots@.len() - i,
        {
            if self.slots[i].0 == thread {
                return Some(i);
            }
            i = i + 1;
        }
        None
    }

    /// Ensures the calling thread's slot exists: the first touch from a
    /// thread runs the constructor recipe once and stores the instance; a
    /// later touch finds the slot and changes nothing. Other threads' slots
    /// are never disturbed.
    pub fn touch(&mut self, thread: u64)
        requires
            old(self).wf(),
        ensures
            final(self).wf(),
            final(self).family_spec() == old(self).family_spec(),
            final(self)@.dom().contains(thread),
            old(self)@.dom().contains(thread) ==> final(self)@ == old(self)@
                && final(self).constructions() == old(self).constructions(),
            !old(self)@.dom().contains(thread) ==> (exists|i: Linked<T, F>|
                produces(old(self).family_spec(), i) && final(self)@ == old(self)@.insert(
                    thread,
                    i,
                )) && final(self).constructions() == old(self).constructions() + 1,
    {
        broadcast use lemma_slots_map_push, lemma_slots_map_index, lemma_slots_map_dom;

        match self.find_index(thread) {
            Some(_) => {},
            None => {
                let inst = self.family.produce();
                self.slots.push((thread, inst));
                proof {
                    assert(self.slots@.drop_last() =~= old(self).slots@);
                }
            },
        }
    }

    /// Read access to the instance cached for a thread.
    pub fn instance(&self, thread: u64) -> (r: Option<&Linked<T, F>>)
        requires
            self.wf(),
        ensures
            match r {
                Some(i) => self@.dom().contains(thread) && *i == self@[thread],
                None => !self@.dom().contains(thread),
            },
    {
        broadcast use lemma_slots_map_index, lemma_slots_map_dom;

        match self.find_index(thread) {
            Some(i) => Some(&self.slots[i].1),
            None => None,
        }
    }

    /// How many threads hold a slot right now. Equals the number of recipe
    /// runs so far, since a slot is filled exactly once.
    pub fn thread_count(&self) -> (n: usize)
        ensures
            n == self.constructions(),
    {
        self.slots.len()
    }

    /// Drops a thread's slot together with the instance in it, as happens
    /// when the thread terminates. Other threads' slots are untouched; a
    /// later touch from the same thread would construct afresh.
    pub fn retire(&mut self, thread: u64) -> (r: Option<Linked<T, F>>)
        requires
            old(self).wf(),
        ensures
            final(self).wf(),
            final(self).family_spec() == old(self).family_spec(),
            final(self)@ == old(self)@.remove(thread),
            match r {
                Some(i) => old(self)@.dom().contains(thread) && i == old(self)@[thread]
                    && final(self).constructions() + 1 == old(self).constructions(),
                None => !old(self)@.dom().contains(thread)
                    && final(self).constructions() == old(self).constructions(),
            },
    {
        broadcast use lemma_slots_map_index, lemma_slots_map_dom, lemma_slots_map_remove;

        match self.find_index(thread) {
            Some(i) => {
                let slot = self.slots.remove(i);
                proof {
                    assert(self@ =~= old(self)@.remove(thread));
                }
                Some(slot.1)
            },
            None => {
                proof {
                    assert(self@ =~= old(self)@.remove(thread));
                }
                None
            },
        }
    }

    /// Thread-local access: materializes the calling thread's instance on
    /// first touch, and on every later call hands back mutable access to the
    /// *same stored instance* — a mutation made through one call is seen by
    /// the next call from the same thread. Slots of other threads are never
    /// read or written.
    pub fn get(&mut self, thread: u64) -> (r: &mut T)
        requires
            old(self).wf(),
        ensures
            final(self).wf(),
            final(self).family_spec() == old(self).family_spec(),
            old(self)@.dom().contains(thread) ==> *r == old(self)@[thread].payload()
                && final(self).constructions() == old(self).constructions(),
            !old(self)@.dom().contains(thread) ==> call_ensures(
                old(self).family_spec().recipe(),
                (),
                *r,
            ) && final(self).constructions() == old(self).constructions() + 1,
            final(self)@.dom() == old(self)@.dom().insert(thread),
            forall|t: u64|
                t != thread && old(self)@.dom().contains(t) ==> final(self)@[t] == old(self)@[t],
            final(self)@.dom().contains(thread),
            final(self)@[thread].payload() == *final(r),
            final(self)@[thread].family_of() == old(self).family_spec(),
    {
        broadcast use
            lemma_slots_map_push,
            lemma_slots_map_index,
            lemma_slots_map_dom,
            lemma_slots_map_update;

        self.touch(thread);
        let idx: usize = match self.find_index(thread) {
            Some(i) => i,
            None => {
                proof {
                    assert(false);
                }
                0
            },
        };
        proof {
            assert(self@.dom() =~= old(self)@.dom().insert(thread));
        }
        self.slots[idx].1.value_mut()
    }
}

/// Law: the constructor recipe has run exactly once per thread that ever
/// touched the cache — the number of recipe runs equals the number of
/// distinct thread keys with a slot, never more.
pub proof fn lemma_one_construction_per_thread<T, F: Fn() -> T>(c: InstanceCache<T, F>)
    requires
        c.wf(),
    ensures
        c@.dom().finite(),
        c@.dom().len() == c.constructions(),
{
    lemma_slots_map_card(c.slots@);
}

/// The exactly-once initialization slot for a named handle's family identity:
/// the first touch creates the identity, and every touch after that returns
/// the identity created first — it is never replaced.
#[verifier::reject_recursive_types(T)]
pub struct LazyFamily<T, F: Fn() -> T> {
    slot: Option<Family<T, F>>,
}

impl<T, F: Fn() -> T> LazyFamily<T, F> {
    /// The identity created so far, if any.
    pub closed spec fn identity(self) -> Option<Family<T, F>> {
        self.slot
    }

    /// An uninitialized slot: no identity exists yet, no recipe has run.
    pub fn new() -> (l: Self)
        ensures
            l.identity() is None,
    {
        LazyFamily { slot: None }
    }

    /// Whether the identity has been created.
    pub fn is_initialized(&self) -> (b: bool)
        ensures
            b == (self.identity() is Some),
    {
        self.slot.is_some()
    }

    /// Returns the family identity, creating it on the very first call and
    /// on every later call returning the same identity unchanged — the
    /// identity is initialized exactly once no matter how often this runs.
    pub fn get_or_init(&mut self, token: u64, recipe: F) -> (h: Family<T, F>)
        requires
            call_requires(recipe, ()),
        ensures
            final(self).identity() == Some(h),
            old(self).identity() matches Some(f) ==> h == f,
            old(self).identity() is None ==> h.id() == token && h.recipe() == recipe,
    {
        match &self.slot {
            Some(f) => {
                return f.clone();
            },
            None => {},
        }
        let f = Family::create(token, recipe);
        self.slot = Some(f.clone());
        f
    }
}

} // verus!
