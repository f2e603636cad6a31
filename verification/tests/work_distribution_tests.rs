//! The work distribution mode lists.

use linked_families::WorkDistribution;

#[test]
fn all_lists_every_mode() {
    assert_eq!(
        WorkDistribution::all().to_vec(),
        vec![
            WorkDistribution::PinnedMemoryRegionPairs,
            WorkDistribution::PinnedSameMemoryRegion,
            WorkDistribution::PinnedSameProcessor,
            WorkDistribution::PinnedSelf,
            WorkDistribution::UnpinnedMemoryRegionPairs,
            WorkDistribution::ConstrainedSameMemoryRegion,
            WorkDistribution::UnpinnedSelf,
            WorkDistribution::UnpinnedPerMemoryRegionSelf,
        ]
    );
}

#[test]
fn all_without_self_lists_the_exchanging_modes() {
    assert_eq!(
        WorkDistribution::all_without_self().to_vec(),
        vec![
            WorkDistribution::PinnedMemoryRegionPairs,
            WorkDistribution::PinnedSameMemoryRegion,
            WorkDistribution::PinnedSameProcessor,
            WorkDistribution::UnpinnedMemoryRegionPairs,
            WorkDistribution::ConstrainedSameMemoryRegion,
        ]
    );
}

#[test]
fn all_with_unique_processors_lists_the_spreading_modes() {
    assert_eq!(
        WorkDistribution::all_with_unique_processors().to_vec(),
        vec![
            WorkDistribution::PinnedMemoryRegionPairs,
            WorkDistribution::PinnedSameMemoryRegion,
            WorkDistribution::PinnedSelf,
            WorkDistribution::UnpinnedMemoryRegionPairs,
            WorkDistribution::ConstrainedSameMemoryRegion,
            WorkDistribution::UnpinnedSelf,
            WorkDistribution::UnpinnedPerMemoryRegionSelf,
        ]
    );
}

#[test]
fn all_with_unique_processors_without_self_lists_both() {
    assert_eq!(
        WorkDistribution::all_with_unique_processors_without_self().to_vec(),
        vec![
            WorkDistribution::PinnedMemoryRegionPairs,
            WorkDistribution::PinnedSameMemoryRegion,
            WorkDistribution::UnpinnedMemoryRegionPairs,
            WorkDistribution::ConstrainedSameMemoryRegion,
        ]
    );
}

#[test]
fn names_spell_the_variants() {
    assert_eq!(
        WorkDistribution::PinnedMemoryRegionPairs.name(),
        "PinnedMemoryRegionPairs"
    );
    assert_eq!(WorkDistribution::PinnedSelf.name(), "PinnedSelf");
    assert_eq!(
        WorkDistribution::ConstrainedSameMemoryRegion.name(),
        "ConstrainedSameMemoryRegion"
    );
}

#[test]
fn every_list_is_a_sublist_of_all() {
    let all = WorkDistribution::all();
    for mode in WorkDistribution::all_without_self() {
        assert!(all.contains(mode));
    }
    for mode in WorkDistribution::all_with_unique_processors() {
        assert!(all.contains(mode));
    }
    for mode in WorkDistribution::all_with_unique_processors_without_self() {
        assert!(all.contains(mode));
    }
}
