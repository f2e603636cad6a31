//! A runtime for *linked object families*: types whose logical identity is
//! shared across a program while each holder owns an independent replica.
//!
//! A [`Family`] handle pairs a unique identity token with a
//! constructor recipe. Producing an instance runs the recipe and stamps the
//! result with the family's identity, so every instance can be traced back
//! to — and can mint new siblings within — its family. A per-thread cache
//! materializes one instance per thread for a named handle, and a capability
//! wrapper narrows an instance to plain value access, deliberately dropping
//! the power to mint further family members.

mod cache;
mod capability;
mod decl;
mod family;
mod object;
mod work_distribution;

pub use cache::InstanceCache;
pub use cache::LazyFamily;
pub use cache::lemma_one_construction_per_thread;
pub use capability::Capability;
pub use decl::DeclError;
pub use decl::ItemDecl;
pub use decl::augment;
pub use family::Family;
pub use family::TokenSource;
pub use family::lemma_same_family_equivalence;
pub use family::same_family;
pub use object::Link;
pub use object::Linked;
pub use object::lemma_clone_preserves_family;
pub use object::lemma_produce_twice_independent;
pub use object::lemma_produced_instance_family;
pub use object::produces;
pub use work_distribution::WorkDistribution;
