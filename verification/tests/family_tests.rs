//! Family handles, instances, and the identity they share.

use linked_families::{Family, TokenSource};

#[test]
fn produced_instance_shares_identity() {
    let family = Family::create(1, || 7u64);
    let instance = family.produce();
    assert!(instance.family().is_same_family(&family));
    assert_eq!(instance.family().token(), family.token());
}

#[test]
fn clone_stays_in_family_and_is_distinct() {
    let family = Family::create(2, || 10u64);
    let mut original = family.produce();
    let mut sibling = original.clone();

    assert!(sibling.family().is_same_family(&original.family()));

    *original.value_mut() = 99;
    assert_eq!(*original.value(), 99);
    assert_eq!(*sibling.value(), 10);

    *sibling.value_mut() = 55;
    assert_eq!(*original.value(), 99);
    assert_eq!(*sibling.value(), 55);
}

#[test]
fn clone_reruns_the_recipe_not_a_field_copy() {
    let family = Family::create(3, || 10u64);
    let mut original = family.produce();
    *original.value_mut() = 42;

    // Cloning re-runs the constructor recipe: the sibling starts at the
    // recipe's initial value, not at the mutated payload.
    let sibling = original.clone();
    assert_eq!(*sibling.value(), 10);
}

#[test]
fn handle_clone_produces_no_instance() {
    let family = Family::create(4, || 1u64);
    let other = family.clone();
    assert!(other.is_same_family(&family));
    assert_eq!(other.token(), 4);
}

#[test]
fn different_families_are_not_identity_equal() {
    let a = Family::create(5, || 0u64);
    let b = Family::create(6, || 0u64);
    // Equal payload recipes do not matter: equality is by identity token.
    assert!(!a.is_same_family(&b));
    assert!(!a.produce().family().is_same_family(&b.produce().family()));
}

#[test]
fn consuming_a_handle_produces_an_instance() {
    let family = Family::create(7, || 33u64);
    let handle = family.clone();
    let instance = handle.into_instance();
    assert_eq!(*instance.value(), 33);
    assert!(instance.family().is_same_family(&family));
}

#[test]
fn token_source_never_repeats() {
    let mut source = TokenSource::new();
    let a = source.fresh();
    let b = source.fresh();
    let c = source.fresh();
    assert_ne!(a, b);
    assert_ne!(a, c);
    assert_ne!(b, c);
}
