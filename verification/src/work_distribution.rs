//! How work is spread over processors during a benchmark run.
//!
//! The work is redistributed for each benchmark iteration, so that
//! hardware-specific performance anomalies are averaged out (e.g. if some
//! processors have worse thermals and throttle more often).

use vstd::prelude::*;

verus! {

/// One way of distributing paired workers over processors and memory regions.
#[derive(Clone, Copy, Debug, Eq, PartialEq, Structural)]
#[non_exhaustive]
pub enum WorkDistribution {
    /// One worker pair per numerically neighboring memory region pair, each
    /// worker pinned to a specific processor. Needs at least two memory
    /// regions.
    PinnedMemoryRegionPairs,
    /// Both workers of a pair in the same memory region, each pinned to a
    /// specific processor.
    PinnedSameMemoryRegion,
    /// Both workers of a pair pinned to one processor, one pair per memory
    /// region.
    PinnedSameProcessor,
    /// Workers placed without regard to memory region or processor, each
    /// processing its own payload.
    PinnedSelf,
    /// Like `PinnedMemoryRegionPairs`, but workers float among the
    /// processors of their memory region.
    UnpinnedMemoryRegionPairs,
    /// Like `PinnedSameMemoryRegion`, but each pair member floats among one
    /// half of the memory region's processors.
    ConstrainedSameMemoryRegion,
    /// Workers placed wherever the scheduler likes, each processing its own
    /// payload.
    UnpinnedSelf,
    /// Workers placed in the memory regions `PinnedMemoryRegionPairs` would
    /// use, floating among the processors there, each processing its own
    /// payload.
    UnpinnedPerMemoryRegionSelf,
}

impl WorkDistribution {
    /// The mode's name, spelled as the variant is.
    pub fn name(&self) -> (r: String)
        ensures
            r@ == match *self {
                WorkDistribution::PinnedMemoryRegionPairs => "PinnedMemoryRegionPairs"@,
                WorkDistribution::PinnedSameMemoryRegion => "PinnedSameMemoryRegion"@,
                WorkDistribution::PinnedSameProcessor => "PinnedSameProcessor"@,
                WorkDistribution::PinnedSelf => "PinnedSelf"@,
                WorkDistribution::UnpinnedMemoryRegionPairs => "UnpinnedMemoryRegionPairs"@,
                WorkDistribution::ConstrainedSameMemoryRegion => "ConstrainedSameMemoryRegion"@,
                WorkDistribution::UnpinnedSelf => "UnpinnedSelf"@,
                WorkDistribution::UnpinnedPerMemoryRegionSelf => "UnpinnedPerMemoryRegionSelf"@,
            },
    {
        match self {
            WorkDistribution::PinnedMemoryRegionPairs => "PinnedMemoryRegionPairs".to_string(),
            WorkDistribution::PinnedSameMemoryRegion => "PinnedSameMemoryRegion".to_string(),
            WorkDistribution::PinnedSameProcessor => "PinnedSameProcessor".to_string(),
            WorkDistribution::PinnedSelf => "PinnedSelf".to_string(),
            WorkDistribution::UnpinnedMemoryRegionPairs => "UnpinnedMemoryRegionPairs".to_string(),
            WorkDistribution::ConstrainedSameMemoryRegion => "ConstrainedSameMemoryRegion".to_string(),
            WorkDistribution::UnpinnedSelf => "UnpinnedSelf".to_string(),
            WorkDistribution::UnpinnedPerMemoryRegionSelf => "UnpinnedPerMemoryRegionSelf".to_string(),
        }
    }

    /// All the work distribution modes.
    pub fn all() -> (r: &'static [Self])
        ensures
            r@ == seq![
                WorkDistribution::PinnedMemoryRegionPairs,
                WorkDistribution::PinnedSameMemoryRegion,
                WorkDistribution::PinnedSameProcessor,
                WorkDistribution::PinnedSelf,
                WorkDistribution::UnpinnedMemoryRegionPairs,
                WorkDistribution::ConstrainedSameMemoryRegion,
                WorkDistribution::UnpinnedSelf,
                WorkDistribution::UnpinnedPerMemoryRegionSelf,
            ],
    {
        let r: &'static [Self] = &[
            WorkDistribution::PinnedMemoryRegionPairs,
            WorkDistribution::PinnedSameMemoryRegion,
            WorkDistribution::PinnedSameProcessor,
            WorkDistribution::PinnedSelf,
            WorkDistribution::UnpinnedMemoryRegionPairs,
            WorkDistribution::ConstrainedSameMemoryRegion,
            WorkDistribution::UnpinnedSelf,
            WorkDistribution::UnpinnedPerMemoryRegionSelf,
        ];
        proof {
            assert(r@ =~= seq![
                WorkDistribution::PinnedMemoryRegionPairs,
                WorkDistribution::PinnedSameMemoryRegion,
                WorkDistribution::PinnedSameProcessor,
                WorkDistribution::PinnedSelf,
                WorkDistribution::UnpinnedMemoryRegionPairs,
                WorkDistribution::ConstrainedSameMemoryRegion,
                WorkDistribution::UnpinnedSelf,
                WorkDistribution::UnpinnedPerMemoryRegionSelf,
            ]);
        }
        r
    }

    /// All the work distribution modes that exchange payloads between
    /// processors before starting the benchmark.
    pub fn all_without_self() -> (r: &'static [Self])
        ensures
            r@ == seq![
                WorkDistribution::PinnedMemoryRegionPairs,
                WorkDistribution::PinnedSameMemoryRegion,
                WorkDistribution::PinnedSameProcessor,
                WorkDistribution::UnpinnedMemoryRegionPairs,
                WorkDistribution::ConstrainedSameMemoryRegion,
            ],
    {
        let r: &'static [Self] = &[
            WorkDistribution::PinnedMemoryRegionPairs,
            WorkDistribution::PinnedSameMemoryRegion,
            WorkDistribution::PinnedSameProcessor,
            WorkDistribution::UnpinnedMemoryRegionPairs,
            WorkDistribution::ConstrainedSameMemoryRegion,
        ];
        proof {
            assert(r@ =~= seq![
                WorkDistribution::PinnedMemoryRegionPairs,
                WorkDistribution::PinnedSameMemoryRegion,
                WorkDistribution::PinnedSameProcessor,
                WorkDistribution::UnpinnedMemoryRegionPairs,
                WorkDistribution::ConstrainedSameMemoryRegion,
            ]);
        }
        r
    }

    /// All the work distribution modes that allow every worker to be placed
    /// on a different processor (either explicitly or by letting them float
    /// based on scheduling decisions).
    pub fn all_with_unique_processors() -> (r: &'static [Self])
        ensures
            r@ == seq![
                WorkDistribution::PinnedMemoryRegionPairs,
                WorkDistribution::PinnedSameMemoryRegion,
                WorkDistribution::PinnedSelf,
                WorkDistribution::UnpinnedMemoryRegionPairs,
                WorkDistribution::ConstrainedSameMemoryRegion,
                WorkDistribution::UnpinnedSelf,
                WorkDistribution::UnpinnedPerMemoryRegionSelf,
            ],
    {
        let r: &'static [Self] = &[
            WorkDistribution::PinnedMemoryRegionPairs,
            WorkDistribution::PinnedSameMemoryRegion,
            WorkDistribution::PinnedSelf,
            WorkDistribution::UnpinnedMemoryRegionPairs,
            WorkDistribution::ConstrainedSameMemoryRegion,
            WorkDistribution::UnpinnedSelf,
            WorkDistribution::UnpinnedPerMemoryRegionSelf,
        ];
        proof {
            assert(r@ =~= seq![
                WorkDistribution::PinnedMemoryRegionPairs,
                WorkDistribution::PinnedSameMemoryRegion,
                WorkDistribution::PinnedSelf,
                WorkDistribution::UnpinnedMemoryRegionPairs,
                WorkDistribution::ConstrainedSameMemoryRegion,
                WorkDistribution::UnpinnedSelf,
                WorkDistribution::UnpinnedPerMemoryRegionSelf,
            ]);
        }
        r
    }

    /// All the work distribution modes that allow every worker to be placed
    /// on a different processor and exchange payloads between workers before
    /// starting the benchmark.
    pub fn all_with_unique_processors_without_self() -> (r: &'static [Self])
        ensures
            r@ == seq![
                WorkDistribution::PinnedMemoryRegionPairs,
                WorkDistribution::PinnedSameMemoryRegion,
                WorkDistribution::UnpinnedMemoryRegionPairs,
                WorkDistribution::ConstrainedSameMemoryRegion,
            ],
    {
        let r: &'static [Self] = &[
            WorkDistribution::PinnedMemoryRegionPairs,
            WorkDistribution::PinnedSameMemoryRegion,
            WorkDistribution::UnpinnedMemoryRegionPairs,
            WorkDistribution::ConstrainedSameMemoryRegion,
        ];
        proof {
            assert(r@ =~= seq![
                WorkDistribution::PinnedMemoryRegionPairs,
                WorkDistribution::PinnedSameMemoryRegion,
                WorkDistribution::UnpinnedMemoryRegionPairs,
                WorkDistribution::ConstrainedSameMemoryRegion,
            ]);
        }
        r
    }
}

} // verus!
