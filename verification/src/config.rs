//! The configuration-merge engine: role-aware computed defaults, the
//! three-layer merge in fixed precedence (role-group over role over
//! default), and structural validation of the resolved configuration.
use crate::affinity::{
    affinity_view, clone_affinity, get_affinity, label_selector_view, merge_affinity,
    spec_add_legacy_selector, spec_default_affinity, spec_merge_affinity, LabelSelector, LabelSelectorView,
    StackableAffinity, StackableAffinityView,
};
use crate::logging::{
    default_logging, logging_frag_complete, merge_logging, spec_default_logging,
    spec_merge_logging, spec_validate_logging, validate_logging, Logging, LoggingFragment,
};
use crate::resources::{
    merge_resources, opt_or, resources_frag_complete, resources_frag_view, resources_view,
    spec_merge_resources, spec_validate_resources, validate_resources, CpuFragView,
    CpuLimitsFragment, MemFragView, MemoryLimitsFragment, OdooStorageConfigFragment, Resources,
    ResourcesFragView, ResourcesFragment, ResourcesView,
};
use crate::role::OdooRole;
use vstd::prelude::*;
use vstd::string::*;

verus! {

/// Structural validation failure: a required configuration field was left
/// unset by every override layer.
#[derive(Clone, Debug, PartialEq, Eq)]
pub struct ValidationError {
    pub field_name: String,
}

/// Resolved, fully-populated configuration of one role-group.
#[derive(Clone, Debug, PartialEq, Eq)]
pub struct OdooConfig {
    pub resources: Resources,
    pub logging: Logging,
    pub affinity: StackableAffinity,
}

/// One override layer of a role-group configuration: every field optional.
#[derive(Clone, Debug, PartialEq, Eq)]
pub struct OdooConfigFragment {
    pub resources: ResourcesFragment,
    pub logging: LoggingFragment,
    pub affinity: StackableAffinity,
}

/// Character-level view of an [`OdooConfigFragment`].
pub struct OdooConfigFragmentView {
    pub resources: ResourcesFragView,
    pub logging: LoggingFragment,
    pub affinity: StackableAffinityView,
}

/// Character-level view of a resolved [`OdooConfig`].
pub struct OdooConfigView {
    pub resources: ResourcesView,
    pub logging: Logging,
    pub affinity: StackableAffinityView,
}

pub open spec fn config_frag_view(x: OdooConfigFragment) -> OdooConfigFragmentView {
    OdooConfigFragmentView {
        resources: resources_frag_view(x.resources),
        logging: x.logging,
        affinity: affinity_view(x.affinity),
    }
}

pub open spec fn config_view(x: OdooConfig) -> OdooConfigView {
    OdooConfigView {
        resources: resources_view(x.resources),
        logging: x.logging,
        affinity: affinity_view(x.affinity),
    }
}

/// Clones a configuration fragment, preserving its view.
pub fn clone_config_fragment(x: &OdooConfigFragment) -> (r: OdooConfigFragment)
    ensures
        config_frag_view(r) == config_frag_view(*x),
{
    OdooConfigFragment {
        resources: ResourcesFragment {
            cpu: CpuLimitsFragment {
                min: crate::strutil::clone_opt_string(&x.resources.cpu.min),
                max: crate::strutil::clone_opt_string(&x.resources.cpu.max),
            },
            memory: MemoryLimitsFragment {
                limit: crate::strutil::clone_opt_string(&x.resources.memory.limit),
            },
            storage: OdooStorageConfigFragment {},
        },
        logging: x.logging,
        affinity: clone_affinity(&x.affinity),
    }
}

/// An empty override layer: nothing set.
pub open spec fn spec_empty_fragment() -> OdooConfigFragmentView {
    OdooConfigFragmentView {
        resources: ResourcesFragView {
            cpu: CpuFragView { min: None, max: None },
            memory: MemFragView { limit: None },
        },
        logging: LoggingFragment {
            enable_vector_agent: None,
            main: crate::logging::ContainerLogConfigFragment { level: None },
            vector: crate::logging::ContainerLogConfigFragment { level: None },
        },
        affinity: StackableAffinityView {
            pod_affinity: None,
            pod_anti_affinity: None,
            node_affinity: None,
            node_selector: None,
        },
    }
}

/// Builds an empty override layer.
pub fn empty_fragment() -> (r: OdooConfigFragment)
    ensures
        config_frag_view(r) == spec_empty_fragment(),
{
    OdooConfigFragment {
        resources: ResourcesFragment {
            cpu: CpuLimitsFragment { min: None, max: None },
            memory: MemoryLimitsFragment { limit: None },
            storage: OdooStorageConfigFragment {},
        },
        logging: LoggingFragment {
            enable_vector_agent: None,
            main: crate::logging::ContainerLogConfigFragment { level: None },
            vector: crate::logging::ContainerLogConfigFragment { level: None },
        },
        affinity: StackableAffinity {
            pod_affinity: None,
            pod_anti_affinity: None,
            node_affinity: None,
            node_selector: None,
        },
    }
}

// ------------------------------------------------------------------
// Computed defaults.
// ------------------------------------------------------------------

/// The CPU request baseline of a role.
pub open spec fn spec_default_cpu_min(role: OdooRole) -> Seq<char> {
    match role {
        OdooRole::Worker => "200m"@,
        OdooRole::Webserver => "100m"@,
        OdooRole::Scheduler => "100m"@,
    }
}

/// The CPU limit baseline of a role.
pub open spec fn spec_default_cpu_max(role: OdooRole) -> Seq<char> {
    match role {
        OdooRole::Worker => "800m"@,
        OdooRole::Webserver => "400m"@,
        OdooRole::Scheduler => "400m"@,
    }
}

/// The memory limit baseline of a role.
pub open spec fn spec_default_memory_limit(role: OdooRole) -> Seq<char> {
    match role {
        OdooRole::Worker => "1750Mi"@,
        OdooRole::Webserver => "2Gi"@,
        OdooRole::Scheduler => "512Mi"@,
    }
}

/// The computed default layer of a role: role-dependent CPU/memory
/// baselines, default logging, and the default affinity policy.
pub open spec fn spec_default_config(cluster_name: Seq<char>, role: OdooRole) -> OdooConfigFragmentView {
    OdooConfigFragmentView {
        resources: ResourcesFragView {
            cpu: CpuFragView {
                min: Some(spec_default_cpu_min(role)),
                max: Some(spec_default_cpu_max(role)),
            },
            memory: MemFragView { limit: Some(spec_default_memory_limit(role)) },
        },
        logging: spec_default_logging(),
        affinity: spec_default_affinity(cluster_name, role),
    }
}

/// Builds the computed default layer for a role of a cluster instance.
pub fn default_config(cluster_name: &str, role: &OdooRole) -> (r: OdooConfigFragment)
    ensures
        config_frag_view(r) == spec_default_config(cluster_name@, *role),
{
    let (cpu_min, cpu_max, memory_limit) = match role {
        OdooRole::Worker => (
            String::from_str("200m"),
            String::from_str("800m"),
            String::from_str("1750Mi"),
        ),
        OdooRole::Webserver => (
            String::from_str("100m"),
            String::from_str("400m"),
            String::from_str("2Gi"),
        ),
        OdooRole::Scheduler => (
            String::from_str("100m"),
            String::from_str("400m"),
            String::from_str("512Mi"),
        ),
    };
    OdooConfigFragment {
        resources: ResourcesFragment {
            cpu: CpuLimitsFragment { min: Some(cpu_min), max: Some(cpu_max) },
            memory: MemoryLimitsFragment { limit: Some(memory_limit) },
            storage: OdooStorageConfigFragment {},
        },
        logging: default_logging(),
        affinity: get_affinity(cluster_name, role),
    }
}

// ------------------------------------------------------------------
// Merge and validation.
// ------------------------------------------------------------------

/// Merge of two override layers: every field of the more specific layer
/// wins when set, otherwise the less specific layer's value fills it.
pub open spec fn spec_merge_config(
    own: OdooConfigFragmentView,
    other: OdooConfigFragmentView,
) -> OdooConfigFragmentView {
    OdooConfigFragmentView {
        resources: spec_merge_resources(own.resources, other.resources),
        logging: spec_merge_logging(own.logging, other.logging),
        affinity: spec_merge_affinity(own.affinity, other.affinity),
    }
}

/// Merges an override layer with a less specific one.
pub fn merge_config(own: &OdooConfigFragment, other: &OdooConfigFragment) -> (r: OdooConfigFragment)
    ensures
        config_frag_view(r) == spec_merge_config(config_frag_view(*own), config_frag_view(*other)),
{
    OdooConfigFragment {
        resources: merge_resources(&own.resources, &other.resources),
        logging: merge_logging(&own.logging, &other.logging),
        affinity: merge_affinity(&own.affinity, &other.affinity),
    }
}

/// A fragment is structurally complete when every required field is set.
/// Affinity fields are optional even in resolved form, so they do not
/// take part.
pub open spec fn config_frag_complete(x: OdooConfigFragmentView) -> bool {
    &&& resources_frag_complete(x.resources)
    &&& logging_frag_complete(x.logging)
}

/// The resolved configuration of a complete fragment.
pub open spec fn spec_validate_config(x: OdooConfigFragmentView) -> OdooConfigView
    recommends
        config_frag_complete(x),
{
    OdooConfigView {
        resources: spec_validate_resources(x.resources),
        logging: spec_validate_logging(x.logging),
        affinity: x.affinity,
    }
}

/// Checks a merged fragment for structural completeness and resolves it.
pub fn validate_config(x: OdooConfigFragment) -> (r: Result<OdooConfig, ValidationError>)
    ensures
        r is Ok <==> config_frag_complete(config_frag_view(x)),
        r is Ok ==> config_view(r->Ok_0) == spec_validate_config(config_frag_view(x)),
{
    let OdooConfigFragment { resources, logging, affinity } = x;
    let resources = match validate_resources(resources) {
        Ok(v) => v,
        Err(field_name) => {
            return Err(ValidationError { field_name });
        },
    };
    let logging = match validate_logging(&logging) {
        Ok(v) => v,
        Err(field_name) => {
            return Err(ValidationError { field_name });
        },
    };
    Ok(OdooConfig { resources, logging, affinity })
}

/// The resolution pipeline over views: role-group onto role, role onto
/// default, then validation.
pub open spec fn spec_resolved_fragment(
    defaults: OdooConfigFragmentView,
    role: OdooConfigFragmentView,
    role_group: OdooConfigFragmentView,
) -> OdooConfigFragmentView {
    spec_merge_config(role_group, spec_merge_config(role, defaults))
}

/// Resolves the effective configuration of a role-group from the three
/// override layers.  Success is owed exactly when the layered fragments
/// leave no required field unset; with the computed defaults of
/// [`spec_default_config`] as the base layer that is always the case.
pub fn resolve(
    defaults: &OdooConfigFragment,
    role: &OdooConfigFragment,
    role_group: &OdooConfigFragment,
) -> (r: Result<OdooConfig, ValidationError>)
    ensures
        r is Ok <==> config_frag_complete(
            spec_resolved_fragment(
                config_frag_view(*defaults),
                config_frag_view(*role),
                config_frag_view(*role_group),
            ),
        ),
        r is Ok ==> config_view(r->Ok_0) == spec_validate_config(
            spec_resolved_fragment(
                config_frag_view(*defaults),
                config_frag_view(*role),
                config_frag_view(*role_group),
            ),
        ),
{
    let role_on_defaults = merge_config(role, defaults);
    let merged = merge_config(role_group, &role_on_defaults);
    validate_config(merged)
}

// ------------------------------------------------------------------
// Laws of the merge engine.
// ------------------------------------------------------------------

/// Law (merge precedence): for any layers D (default), R (role) and
/// G (role-group), every field of the resolved fragment is G's value when G
/// sets it, else R's value when R sets it, else D's value.
pub proof fn lemma_merge_precedence(
    d: OdooConfigFragmentView,
    r: OdooConfigFragmentView,
    g: OdooConfigFragmentView,
)
    ensures
        spec_resolved_fragment(d, r, g).resources.cpu.min == opt_or(
            g.resources.cpu.min,
            opt_or(r.resources.cpu.min, d.resources.cpu.min),
        ),
        spec_resolved_fragment(d, r, g).resources.cpu.max == opt_or(
            g.resources.cpu.max,
            opt_or(r.resources.cpu.max, d.resources.cpu.max),
        ),
        spec_resolved_fragment(d, r, g).resources.memory.limit == opt_or(
            g.resources.memory.limit,
            opt_or(r.resources.memory.limit, d.resources.memory.limit),
        ),
        spec_resolved_fragment(d, r, g).logging.enable_vector_agent == opt_or(
            g.logging.enable_vector_agent,
            opt_or(r.logging.enable_vector_agent, d.logging.enable_vector_agent),
        ),
        spec_resolved_fragment(d, r, g).logging.main.level == opt_or(
            g.logging.main.level,
            opt_or(r.logging.main.level, d.logging.main.level),
        ),
        spec_resolved_fragment(d, r, g).logging.vector.level == opt_or(
            g.logging.vector.level,
            opt_or(r.logging.vector.level, d.logging.vector.level),
        ),
        spec_resolved_fragment(d, r, g).affinity.pod_affinity == opt_or(
            g.affinity.pod_affinity,
            opt_or(r.affinity.pod_affinity, d.affinity.pod_affinity),
        ),
        spec_resolved_fragment(d, r, g).affinity.pod_anti_affinity == opt_or(
            g.affinity.pod_anti_affinity,
            opt_or(r.affinity.pod_anti_affinity, d.affinity.pod_anti_affinity),
        ),
        spec_resolved_fragment(d, r, g).affinity.node_affinity == opt_or(
            g.affinity.node_affinity,
            opt_or(r.affinity.node_affinity, d.affinity.node_affinity),
        ),
        spec_resolved_fragment(d, r, g).affinity.node_selector == opt_or(
            g.affinity.node_selector,
            opt_or(r.affinity.node_selector, d.affinity.node_selector),
        ),
{
}

/// Law: merging preserves structural completeness of the base layer, so
/// resolution on top of the computed defaults always validates.
pub proof fn lemma_complete_defaults_resolve(
    d: OdooConfigFragmentView,
    r: OdooConfigFragmentView,
    g: OdooConfigFragmentView,
)
    requires
        config_frag_complete(d),
    ensures
        config_frag_complete(spec_resolved_fragment(d, r, g)),
{
}

/// Law: the computed default layer is structurally complete.
pub proof fn lemma_default_config_complete(cluster_name: Seq<char>, role: OdooRole)
    ensures
        config_frag_complete(spec_default_config(cluster_name, role)),
{
}

/// Law (legacy selector migration): when neither the role-group layer nor
/// any other layer sets node affinity or a node selector, migrating a legacy
/// flat selector into the role-group layer yields a resolved configuration
/// whose node selector is the selector's label map and whose node affinity
/// is one required term holding the selector's match expressions, while the
/// default pod (anti-)affinity rules survive unchanged: the legacy selector
/// augments the defaults rather than replacing them.
pub proof fn lemma_legacy_selector_augments(
    cluster_name: Seq<char>,
    role: OdooRole,
    r: OdooConfigFragmentView,
    g: OdooConfigFragmentView,
    selector: LabelSelectorView,
)
    requires
        g.affinity == spec_empty_fragment().affinity,
        r.affinity.pod_affinity is None,
        r.affinity.pod_anti_affinity is None,
        r.affinity.node_affinity is None,
        r.affinity.node_selector is None,
        selector.match_labels is Some,
        selector.match_expressions is Some,
    ensures
        ({
            let d = spec_default_config(cluster_name, role);
            let g_migrated = OdooConfigFragmentView {
                affinity: spec_add_legacy_selector(g.affinity, selector),
                ..g
            };
            let resolved = spec_resolved_fragment(d, r, g_migrated);
            &&& resolved.affinity.node_selector == selector.match_labels
            &&& resolved.affinity.node_affinity == Some(
                crate::affinity::NodeAffinityView {
                    required: Some(
                        seq![
                            crate::affinity::NodeSelectorTermView {
                                match_expressions: selector.match_expressions,
                            },
                        ],
                    ),
                },
            )
            &&& resolved.affinity.pod_affinity == spec_default_affinity(cluster_name, role).pod_affinity
            &&& resolved.affinity.pod_anti_affinity == spec_default_affinity(
                cluster_name,
                role,
            ).pod_anti_affinity
        }),
{
}

} // verus!
