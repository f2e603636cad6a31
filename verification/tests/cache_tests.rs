//! The per-thread instance registry and the exactly-once identity slot.

use std::sync::Arc;
use std::sync::atomic::{AtomicUsize, Ordering};

use linked_families::{Family, InstanceCache, LazyFamily};

/// A counter with a thread-local count and a count shared across the family.
struct Counter {
    local: usize,
    global: Arc<AtomicUsize>,
}

fn counter_family(token: u64) -> (Family<Counter, impl Fn() -> Counter>, Arc<AtomicUsize>) {
    let global = Arc::new(AtomicUsize::new(0));
    let captured = Arc::clone(&global);
    let family = Family::create(token, move || Counter {
        local: 0,
        global: Arc::clone(&captured),
    });
    (family, global)
}

#[test]
fn repeated_get_returns_the_same_stored_instance() {
    let (family, _global) = counter_family(1);
    let mut cache = InstanceCache::new(family);

    let thread = 10u64;
    cache.get(thread).local = 123;
    // The mutation made through the first access is observable through the
    // second: both hand back the same stored instance, not a fresh clone.
    assert_eq!(cache.get(thread).local, 123);
}

#[test]
fn recipe_runs_once_per_thread() {
    let runs = Arc::new(AtomicUsize::new(0));
    let captured = Arc::clone(&runs);
    let family = Family::create(2, move || {
        captured.fetch_add(1, Ordering::Relaxed);
        0u64
    });
    let mut cache = InstanceCache::new(family);

    for thread in [1u64, 2, 3] {
        cache.get(thread);
        cache.get(thread);
        cache.get(thread);
    }

    // Three distinct threads touched the cache: exactly three runs, never more.
    assert_eq!(runs.load(Ordering::Relaxed), 3);
}

#[test]
fn threads_do_not_disturb_each_other() {
    let (family, _global) = counter_family(3);
    let mut cache = InstanceCache::new(family);

    cache.get(1).local = 100;
    cache.get(2).local = 200;

    assert_eq!(cache.get(1).local, 100);
    assert_eq!(cache.get(2).local, 200);
}

#[test]
fn counter_scenario_four_threads_thousand_increments() {
    let (family, global) = counter_family(4);
    let mut cache = InstanceCache::new(family);

    for thread in 0..4u64 {
        for _ in 0..1000 {
            let counter = cache.get(thread);
            counter.local += 1;
            counter.global.fetch_add(1, Ordering::Relaxed);
        }
    }

    for thread in 0..4u64 {
        let instance = cache.instance(thread).unwrap();
        assert_eq!(instance.value().local, 1000);
    }
    assert_eq!(global.load(Ordering::Relaxed), 4000);
}

#[test]
fn produce_twice_bypassing_the_cache_yields_independent_instances() {
    let (family, global) = counter_family(5);

    let mut first = family.produce();
    let mut second = family.produce();

    // Both start at the recipe's initial value.
    assert_eq!(first.value().local, 0);
    assert_eq!(second.value().local, 0);

    first.value_mut().local = 7;
    assert_eq!(second.value().local, 0);
    second.value_mut().local = 9;
    assert_eq!(first.value().local, 7);

    // The shared sub-state the recipe captured is shared all the same.
    first.value().global.fetch_add(1, Ordering::Relaxed);
    second.value().global.fetch_add(1, Ordering::Relaxed);
    assert_eq!(global.load(Ordering::Relaxed), 2);
}

#[test]
fn retiring_a_thread_drops_only_its_slot() {
    let (family, _global) = counter_family(7);
    let mut cache = InstanceCache::new(family);

    cache.get(1).local = 11;
    cache.get(2).local = 22;
    assert_eq!(cache.thread_count(), 2);

    let gone = cache.retire(1).expect("thread 1 held a slot");
    assert_eq!(gone.value().local, 11);
    assert_eq!(cache.thread_count(), 1);
    assert!(cache.instance(1).is_none());
    assert_eq!(cache.instance(2).unwrap().value().local, 22);

    assert!(cache.retire(1).is_none());

    // A later touch from the retired thread constructs afresh.
    assert_eq!(cache.get(1).local, 0);
}

#[test]
fn lazy_identity_is_initialized_exactly_once() {
    fn five() -> u64 {
        5
    }
    fn six() -> u64 {
        6
    }

    let mut lazy: LazyFamily<u64, fn() -> u64> = LazyFamily::new();
    assert!(!lazy.is_initialized());

    let first = lazy.get_or_init(1, five);
    assert!(lazy.is_initialized());
    assert_eq!(first.token(), 1);

    // A second touch, even with another token and another recipe, returns
    // the identity created first.
    let second = lazy.get_or_init(2, six);
    assert_eq!(second.token(), 1);
    assert!(first.is_same_family(&second));
    assert_eq!(*second.produce().value(), 5);
}

#[test]
fn cache_family_handle_keeps_identity() {
    let (family, _global) = counter_family(6);
    let cache = InstanceCache::new(family.clone());
    assert!(cache.family().is_same_family(&family));
}
