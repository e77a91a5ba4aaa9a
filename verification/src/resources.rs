//! Resource limits (CPU and memory) of a role-group, in both fragment
//! (all-optional) and resolved form, with merge-if-unset semantics.
//!
//! Quantities are kept as plain strings in Kubernetes quantity notation
//! (`"200m"`, `"1750Mi"`); the core never computes with them.
use crate::strutil::opt_str_view;
use vstd::prelude::*;
use vstd::string::*;

verus! {

/// Fills an unset field from a less specific layer; an already-set field is
/// kept.
pub open spec fn opt_or<A>(own: Option<A>, other: Option<A>) -> Option<A> {
    match own {
        Some(v) => Some(v),
        None => other,
    }
}

/// Merges two optional strings: the first operand wins when set.
pub fn merge_opt_string(own: &Option<String>, other: &Option<String>) -> (r: Option<String>)
    ensures
        opt_str_view(r) == opt_or(opt_str_view(*own), opt_str_view(*other)),
{
    match own {
        Some(s) => Some(s.clone()),
        None => match other {
            Some(s) => Some(s.clone()),
            None => None,
        },
    }
}

/// Empty per-role storage configuration.
#[derive(Clone, Copy, Debug, PartialEq, Eq, Structural)]
pub struct OdooStorageConfig {}

/// Fragment of [`OdooStorageConfig`]; there is nothing to override.
#[derive(Clone, Copy, Debug, PartialEq, Eq, Structural)]
pub struct OdooStorageConfigFragment {}

/// CPU request and limit of the main container.
#[derive(Clone, Debug, PartialEq, Eq)]
pub struct CpuLimits {
    pub min: String,
    pub max: String,
}

/// Override layer for [`CpuLimits`].
#[derive(Clone, Debug, PartialEq, Eq)]
pub struct CpuLimitsFragment {
    pub min: Option<String>,
    pub max: Option<String>,
}

/// Memory limit of the main container.
#[derive(Clone, Debug, PartialEq, Eq)]
pub struct MemoryLimits {
    pub limit: String,
}

/// Override layer for [`MemoryLimits`].
#[derive(Clone, Debug, PartialEq, Eq)]
pub struct MemoryLimitsFragment {
    pub limit: Option<String>,
}

/// Resolved resource configuration of a role-group.
#[derive(Clone, Debug, PartialEq, Eq)]
pub struct Resources {
    pub cpu: CpuLimits,
    pub memory: MemoryLimits,
    pub storage: OdooStorageConfig,
}

/// Override layer for [`Resources`].
#[derive(Clone, Debug, PartialEq, Eq)]
pub struct ResourcesFragment {
    pub cpu: CpuLimitsFragment,
    pub memory: MemoryLimitsFragment,
    pub storage: OdooStorageConfigFragment,
}

/// Character-level view of a [`CpuLimitsFragment`].
pub struct CpuFragView {
    pub min: Option<Seq<char>>,
    pub max: Option<Seq<char>>,
}

/// Character-level view of a [`MemoryLimitsFragment`].
pub struct MemFragView {
    pub limit: Option<Seq<char>>,
}

/// Character-level view of a [`ResourcesFragment`].
pub struct ResourcesFragView {
    pub cpu: CpuFragView,
    pub memory: MemFragView,
}

/// Character-level view of a resolved [`Resources`].
pub struct ResourcesView {
    pub cpu_min: Seq<char>,
    pub cpu_max: Seq<char>,
    pub memory_limit: Seq<char>,
}

pub open spec fn cpu_frag_view(x: CpuLimitsFragment) -> CpuFragView {
    CpuFragView { min: opt_str_view(x.min), max: opt_str_view(x.max) }
}

pub open spec fn mem_frag_view(x: MemoryLimitsFragment) -> MemFragView {
    MemFragView { limit: opt_str_view(x.limit) }
}

pub open spec fn resources_frag_view(x: ResourcesFragment) -> ResourcesFragView {
    ResourcesFragView { cpu: cpu_frag_view(x.cpu), memory: mem_frag_view(x.memory) }
}

pub open spec fn resources_view(x: Resources) -> ResourcesView {
    ResourcesView { cpu_min: x.cpu.min@, cpu_max: x.cpu.max@, memory_limit: x.memory.limit@ }
}

/// Merge of resource fragments: every field of the more specific layer wins
/// when set, otherwise the less specific layer's value is taken.
pub open spec fn spec_merge_resources(own: ResourcesFragView, other: ResourcesFragView) -> ResourcesFragView {
    ResourcesFragView {
        cpu: CpuFragView {
            min: opt_or(own.cpu.min, other.cpu.min),
            max: opt_or(own.cpu.max, other.cpu.max),
        },
        memory: MemFragView { limit: opt_or(own.memory.limit, other.memory.limit) },
    }
}

/// Merges a resource fragment with a less specific layer.
pub fn merge_resources(own: &ResourcesFragment, other: &ResourcesFragment) -> (r: ResourcesFragment)
    ensures
        resources_frag_view(r) == spec_merge_resources(
            resources_frag_view(*own),
            resources_frag_view(*other),
        ),
{
    ResourcesFragment {
        cpu: CpuLimitsFragment {
            min: merge_opt_string(&own.cpu.min, &other.cpu.min),
            max: merge_opt_string(&own.cpu.max, &other.cpu.max),
        },
        memory: MemoryLimitsFragment { limit: merge_opt_string(&own.memory.limit, &other.memory.limit) },
        storage: OdooStorageConfigFragment {},
    }
}

/// A resource fragment validates when every field is set.
pub open spec fn resources_frag_complete(x: ResourcesFragView) -> bool {
    &&& x.cpu.min is Some
    &&& x.cpu.max is Some
    &&& x.memory.limit is Some
}

/// The resolved resources of a complete fragment.
pub open spec fn spec_validate_resources(x: ResourcesFragView) -> ResourcesView
    recommends
        resources_frag_complete(x),
{
    ResourcesView {
        cpu_min: x.cpu.min->0,
        cpu_max: x.cpu.max->0,
        memory_limit: x.memory.limit->0,
    }
}

/// Checks a resource fragment for structural completeness and resolves it.
/// Returns the name of the first missing field otherwise.
pub fn validate_resources(x: ResourcesFragment) -> (r: Result<Resources, String>)
    ensures
        r is Ok <==> resources_frag_complete(resources_frag_view(x)),
        r is Ok ==> resources_view(r->Ok_0) == spec_validate_resources(resources_frag_view(x)),
{
    let ResourcesFragment { cpu, memory, storage } = x;
    let min = match cpu.min {
        Some(v) => v,
        None => {
            return Err(String::from_str("resources.cpu.min"));
        },
    };
    let max = match cpu.max {
        Some(v) => v,
        None => {
            return Err(String::from_str("resources.cpu.max"));
        },
    };
    let limit = match memory.limit {
        Some(v) => v,
        None => {
            return Err(String::from_str("resources.memory.limit"));
        },
    };
    Ok(Resources {
        cpu: CpuLimits { min, max },
        memory: MemoryLimits { limit },
        storage: OdooStorageConfig {},
    })
}

} // verus!
