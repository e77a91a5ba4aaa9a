//! Pod scheduling preferences of a role-group: the default soft
//! (anti-)affinity rules, the legacy flat node-selector migration, and the
//! merge of affinity override layers.
//!
//! Kubernetes affinity values are held in plain structs of the library so
//! that the merge engine and the policy builder are checkable; the external
//! resource manager turns them into API objects.
use crate::role::{spec_role_name, OdooRole};
use crate::strutil::opt_str_view;
use vstd::prelude::*;
use vstd::string::*;

verus! {

/// One label match requirement (`key operator [values..]`), used both in
/// label selectors and in node-selector terms.
#[derive(Clone, Debug, PartialEq, Eq)]
pub struct MatchExpression {
    pub key: String,
    pub operator: String,
    pub values: Option<Vec<String>>,
}

/// A label selector over pods or nodes.
#[derive(Clone, Debug, PartialEq, Eq)]
pub struct LabelSelector {
    pub match_labels: Option<Vec<(String, String)>>,
    pub match_expressions: Option<Vec<MatchExpression>>,
}

/// A pod (anti-)affinity term: pods matched by the selector, spread over the
/// given topology.
#[derive(Clone, Debug, PartialEq, Eq)]
pub struct PodAffinityTerm {
    pub label_selector: Option<LabelSelector>,
    pub topology_key: String,
}

/// A soft scheduling rule: an affinity term with a preference weight.
#[derive(Clone, Debug, PartialEq, Eq)]
pub struct WeightedPodAffinityTerm {
    pub weight: i32,
    pub pod_affinity_term: PodAffinityTerm,
}

/// Pod affinity or anti-affinity rules; the two have the same shape.
#[derive(Clone, Debug, PartialEq, Eq)]
pub struct PodAffinity {
    pub preferred_during_scheduling_ignored_during_execution: Option<Vec<WeightedPodAffinityTerm>>,
    pub required_during_scheduling_ignored_during_execution: Option<Vec<PodAffinityTerm>>,
}

/// One term of a required node selector.
#[derive(Clone, Debug, PartialEq, Eq)]
pub struct NodeSelectorTerm {
    pub match_expressions: Option<Vec<MatchExpression>>,
}

/// A required node selector: a disjunction of terms.
#[derive(Clone, Debug, PartialEq, Eq)]
pub struct NodeSelector {
    pub node_selector_terms: Vec<NodeSelectorTerm>,
}

/// Node affinity rules; only hard requirements are used here.
#[derive(Clone, Debug, PartialEq, Eq)]
pub struct NodeAffinity {
    pub required_during_scheduling_ignored_during_execution: Option<NodeSelector>,
}

/// A flat node-selector label map.
#[derive(Clone, Debug, PartialEq, Eq)]
pub struct StackableNodeSelector {
    pub node_selector: Vec<(String, String)>,
}

/// The affinity block of a role-group configuration.  Every field is
/// optional, so the same type serves as its own override fragment.
#[derive(Clone, Debug, PartialEq, Eq)]
pub struct StackableAffinity {
    pub pod_affinity: Option<PodAffinity>,
    pub pod_anti_affinity: Option<PodAffinity>,
    pub node_affinity: Option<NodeAffinity>,
    pub node_selector: Option<StackableNodeSelector>,
}

// ------------------------------------------------------------------
// Character-level views.
// ------------------------------------------------------------------

pub struct MatchExpressionView {
    pub key: Seq<char>,
    pub operator: Seq<char>,
    pub values: Option<Seq<Seq<char>>>,
}

pub struct LabelSelectorView {
    pub match_labels: Option<Seq<(Seq<char>, Seq<char>)>>,
    pub match_expressions: Option<Seq<MatchExpressionView>>,
}

pub struct PodAffinityTermView {
    pub label_selector: Option<LabelSelectorView>,
    pub topology_key: Seq<char>,
}

pub struct WeightedPodAffinityTermView {
    pub weight: i32,
    pub pod_affinity_term: PodAffinityTermView,
}

pub struct PodAffinityView {
    pub preferred: Option<Seq<WeightedPodAffinityTermView>>,
    pub required: Option<Seq<PodAffinityTermView>>,
}

pub struct NodeSelectorTermView {
    pub match_expressions: Option<Seq<MatchExpressionView>>,
}

pub struct NodeAffinityView {
    pub required: Option<Seq<NodeSelectorTermView>>,
}

pub struct StackableAffinityView {
    pub pod_affinity: Option<PodAffinityView>,
    pub pod_anti_affinity: Option<PodAffinityView>,
    pub node_affinity: Option<NodeAffinityView>,
    pub node_selector: Option<Seq<(Seq<char>, Seq<char>)>>,
}

pub open spec fn pairs_view(s: Seq<(String, String)>) -> Seq<(Seq<char>, Seq<char>)> {
    s.map_values(|p: (String, String)| (p.0@, p.1@))
}

pub open spec fn strings_view(s: Seq<String>) -> Seq<Seq<char>> {
    s.map_values(|x: String| x@)
}

pub open spec fn match_expression_view(x: MatchExpression) -> MatchExpressionView {
    MatchExpressionView {
        key: x.key@,
        operator: x.operator@,
        values: match x.values {
            Some(v) => Some(strings_view(v@)),
            None => None,
        },
    }
}

pub open spec fn match_expressions_view(s: Seq<MatchExpression>) -> Seq<MatchExpressionView> {
    s.map_values(|x: MatchExpression| match_expression_view(x))
}

pub open spec fn label_selector_view(x: LabelSelector) -> LabelSelectorView {
    LabelSelectorView {
        match_labels: match x.match_labels {
            Some(v) => Some(pairs_view(v@)),
            None => None,
        },
        match_expressions: match x.match_expressions {
            Some(v) => Some(match_expressions_view(v@)),
            None => None,
        },
    }
}

pub open spec fn pod_affinity_term_view(x: PodAffinityTerm) -> PodAffinityTermView {
    PodAffinityTermView {
        label_selector: match x.label_selector {
            Some(v) => Some(label_selector_view(v)),
            None => None,
        },
        topology_key: x.topology_key@,
    }
}

pub open spec fn weighted_term_view(x: WeightedPodAffinityTerm) -> WeightedPodAffinityTermView {
    WeightedPodAffinityTermView {
        weight: x.weight,
        pod_affinity_term: pod_affinity_term_view(x.pod_affinity_term),
    }
}

pub open spec fn pod_affinity_view(x: PodAffinity) -> PodAffinityView {
    PodAffinityView {
        preferred: match x.preferred_during_scheduling_ignored_during_execution {
            Some(v) => Some(v@.map_values(|t: WeightedPodAffinityTerm| weighted_term_view(t))),
            None => None,
        },
        required: match x.required_during_scheduling_ignored_during_execution {
            Some(v) => Some(v@.map_values(|t: PodAffinityTerm| pod_affinity_term_view(t))),
            None => None,
        },
    }
}

pub open spec fn node_selector_term_view(x: NodeSelectorTerm) -> NodeSelectorTermView {
    NodeSelectorTermView {
        match_expressions: match x.match_expressions {
            Some(v) => Some(match_expressions_view(v@)),
            None => None,
        },
    }
}

pub open spec fn node_affinity_view(x: NodeAffinity) -> NodeAffinityView {
    NodeAffinityView {
        required: match x.required_during_scheduling_ignored_during_execution {
            Some(v) => Some(v.node_selector_terms@.map_values(|t: NodeSelectorTerm| node_selector_term_view(t))),
            None => None,
        },
    }
}

pub open spec fn affinity_view(x: StackableAffinity) -> StackableAffinityView {
    StackableAffinityView {
        pod_affinity: match x.pod_affinity {
            Some(v) => Some(pod_affinity_view(v)),
            None => None,
        },
        pod_anti_affinity: match x.pod_anti_affinity {
            Some(v) => Some(pod_affinity_view(v)),
            None => None,
        },
        node_affinity: match x.node_affinity {
            Some(v) => Some(node_affinity_view(v)),
            None => None,
        },
        node_selector: match x.node_selector {
            Some(v) => Some(pairs_view(v.node_selector@)),
            None => None,
        },
    }
}

// ------------------------------------------------------------------
// View-preserving clones.
// ------------------------------------------------------------------

pub fn clone_string_vec(x: &Vec<String>) -> (r: Vec<String>)
    ensures
        strings_view(r@) == strings_view(x@),
{
    let mut r: Vec<String> = Vec::new();
    let mut i: usize = 0;
    while i < x.len()
        invariant
            i <= x@.len(),
            r@.len() == i,
            forall|j: int| 0 <= j < i ==> r@[j]@ == x@[j]@,
        decreases x@.len() - i,
    {
        r.push(x[i].clone());
        i += 1;
    }
    proof {
        assert(strings_view(r@) =~= strings_view(x@));
    }
    r
}

pub fn clone_pairs(x: &Vec<(String, String)>) -> (r: Vec<(String, String)>)
    ensures
        pairs_view(r@) == pairs_view(x@),
{
    let mut r: Vec<(String, String)> = Vec::new();
    let mut i: usize = 0;
    while i < x.len()
        invariant
            i <= x@.len(),
            r@.len() == i,
            forall|j: int| 0 <= j < i ==> r@[j].0@ == x@[j].0@ && r@[j].1@ == x@[j].1@,
        decreases x@.len() - i,
    {
        let (k, v) = (&x[i].0, &x[i].1);
        r.push((k.clone(), v.clone()));
        i += 1;
    }
    proof {
        assert(pairs_view(r@) =~= pairs_view(x@));
    }
    r
}

pub fn clone_match_expression(x: &MatchExpression) -> (r: MatchExpression)
    ensures
        match_expression_view(r) == match_expression_view(*x),
{
    MatchExpression {
        key: x.key.clone(),
        operator: x.operator.clone(),
        values: match &x.values {
            Some(v) => Some(clone_string_vec(v)),
            None => None,
        },
    }
}

pub fn clone_match_expressions(x: &Vec<MatchExpression>) -> (r: Vec<MatchExpression>)
    ensures
        match_expressions_view(r@) == match_expressions_view(x@),
{
    let mut r: Vec<MatchExpression> = Vec::new();
    let mut i: usize = 0;
    while i < x.len()
        invariant
            i <= x@.len(),
            r@.len() == i,
            forall|j: int| 0 <= j < i ==> match_expression_view(r@[j]) == match_expression_view(x@[j]),
        decreases x@.len() - i,
    {
        r.push(clone_match_expression(&x[i]));
        i += 1;
    }
    proof {
        assert(match_expressions_view(r@) =~= match_expressions_view(x@));
    }
    r
}

pub fn clone_label_selector(x: &LabelSelector) -> (r: LabelSelector)
    ensures
        label_selector_view(r) == label_selector_view(*x),
{
    LabelSelector {
        match_labels: match &x.match_labels {
            Some(v) => Some(clone_pairs(v)),
            None => None,
        },
        match_expressions: match &x.match_expressions {
            Some(v) => Some(clone_match_expressions(v)),
            None => None,
        },
    }
}

pub fn clone_pod_affinity_term(x: &PodAffinityTerm) -> (r: PodAffinityTerm)
    ensures
        pod_affinity_term_view(r) == pod_affinity_term_view(*x),
{
    PodAffinityTerm {
        label_selector: match &x.label_selector {
            Some(v) => Some(clone_label_selector(v)),
            None => None,
        },
        topology_key: x.topology_key.clone(),
    }
}

pub fn clone_pod_affinity(x: &PodAffinity) -> (r: PodAffinity)
    ensures
        pod_affinity_view(r) == pod_affinity_view(*x),
{
    let preferred = match &x.preferred_during_scheduling_ignored_during_execution {
        Some(v) => {
            let mut terms: Vec<WeightedPodAffinityTerm> = Vec::new();
            let mut i: usize = 0;
            while i < v.len()
                invariant
                    i <= v@.len(),
                    terms@.len() == i,
                    forall|j: int| 0 <= j < i ==> weighted_term_view(terms@[j]) == weighted_term_view(v@[j]),
                decreases v@.len() - i,
            {
                terms.push(WeightedPodAffinityTerm {
                    weight: v[i].weight,
                    pod_affinity_term: clone_pod_affinity_term(&v[i].pod_affinity_term),
                });
                i += 1;
            }
            proof {
                assert(terms@.map_values(|t: WeightedPodAffinityTerm| weighted_term_view(t)) =~= v@.map_values(
                    |t: WeightedPodAffinityTerm| weighted_term_view(t),
                ));
            }
            Some(terms)
        },
        None => None,
    };
    let required = match &x.required_during_scheduling_ignored_during_execution {
        Some(v) => {
            let mut terms: Vec<PodAffinityTerm> = Vec::new();
            let mut i: usize = 0;
            while i < v.len()
                invariant
                    i <= v@.len(),
                    terms@.len() == i,
                    forall|j: int| 0 <= j < i ==> pod_affinity_term_view(terms@[j]) == pod_affinity_term_view(
                        v@[j],
                    ),
                decreases v@.len() - i,
            {
                terms.push(clone_pod_affinity_term(&v[i]));
                i += 1;
            }
            proof {
                assert(terms@.map_values(|t: PodAffinityTerm| pod_affinity_term_view(t)) =~= v@.map_values(
                    |t: PodAffinityTerm| pod_affinity_term_view(t),
                ));
            }
            Some(terms)
        },
        None => None,
    };
    PodAffinity {
        preferred_during_scheduling_ignored_during_execution: preferred,
        required_during_scheduling_ignored_during_execution: required,
    }
}

pub fn clone_node_affinity(x: &NodeAffinity) -> (r: NodeAffinity)
    ensures
        node_affinity_view(r) == node_affinity_view(*x),
{
    match &x.required_during_scheduling_ignored_during_execution {
        Some(sel) => {
            let mut terms: Vec<NodeSelectorTerm> = Vec::new();
            let mut i: usize = 0;
            while i < sel.node_selector_terms.len()
                invariant
                    i <= sel.node_selector_terms@.len(),
                    terms@.len() == i,
                    forall|j: int| 0 <= j < i ==> node_selector_term_view(terms@[j]) == node_selector_term_view(
                        sel.node_selector_terms@[j],
                    ),
                decreases sel.node_selector_terms@.len() - i,
            {
                let t = &sel.node_selector_terms[i];
                terms.push(NodeSelectorTerm {
                    match_expressions: match &t.match_expressions {
                        Some(v) => Some(clone_match_expressions(v)),
                        None => None,
                    },
                });
                i += 1;
            }
            proof {
                assert(terms@.map_values(|t: NodeSelectorTerm| node_selector_term_view(t)) =~= sel
                    .node_selector_terms@.map_values(|t: NodeSelectorTerm| node_selector_term_view(t)));
            }
            NodeAffinity {
                required_during_scheduling_ignored_during_execution: Some(NodeSelector {
                    node_selector_terms: terms,
                }),
            }
        },
        None => NodeAffinity { required_during_scheduling_ignored_during_execution: None },
    }
}

pub fn clone_affinity(x: &StackableAffinity) -> (r: StackableAffinity)
    ensures
        affinity_view(r) == affinity_view(*x),
{
    StackableAffinity {
        pod_affinity: match &x.pod_affinity {
            Some(v) => Some(clone_pod_affinity(v)),
            None => None,
        },
        pod_anti_affinity: match &x.pod_anti_affinity {
            Some(v) => Some(clone_pod_affinity(v)),
            None => None,
        },
        node_affinity: match &x.node_affinity {
            Some(v) => Some(clone_node_affinity(v)),
            None => None,
        },
        node_selector: match &x.node_selector {
            Some(v) => Some(StackableNodeSelector { node_selector: clone_pairs(&v.node_selector) }),
            None => None,
        },
    }
}

// ------------------------------------------------------------------
// Merge: each of the four blocks is taken whole from the most specific
// layer that sets it.
// ------------------------------------------------------------------

pub open spec fn spec_merge_affinity(own: StackableAffinityView, other: StackableAffinityView) -> StackableAffinityView {
    StackableAffinityView {
        pod_affinity: crate::resources::opt_or(own.pod_affinity, other.pod_affinity),
        pod_anti_affinity: crate::resources::opt_or(own.pod_anti_affinity, other.pod_anti_affinity),
        node_affinity: crate::resources::opt_or(own.node_affinity, other.node_affinity),
        node_selector: crate::resources::opt_or(own.node_selector, other.node_selector),
    }
}

/// Merges an affinity layer with a less specific one.
pub fn merge_affinity(own: &StackableAffinity, other: &StackableAffinity) -> (r: StackableAffinity)
    ensures
        affinity_view(r) == spec_merge_affinity(affinity_view(*own), affinity_view(*other)),
{
    StackableAffinity {
        pod_affinity: match &own.pod_affinity {
            Some(v) => Some(clone_pod_affinity(v)),
            None => match &other.pod_affinity {
                Some(v) => Some(clone_pod_affinity(v)),
                None => None,
            },
        },
        pod_anti_affinity: match &own.pod_anti_affinity {
            Some(v) => Some(clone_pod_affinity(v)),
            None => match &other.pod_anti_affinity {
                Some(v) => Some(clone_pod_affinity(v)),
                None => None,
            },
        },
        node_affinity: match &own.node_affinity {
            Some(v) => Some(clone_node_affinity(v)),
            None => match &other.node_affinity {
                Some(v) => Some(clone_node_affinity(v)),
                None => None,
            },
        },
        node_selector: match &own.node_selector {
            Some(v) => Some(StackableNodeSelector { node_selector: clone_pairs(&v.node_selector) }),
            None => match &other.node_selector {
                Some(v) => Some(StackableNodeSelector { node_selector: clone_pairs(&v.node_selector) }),
                None => None,
            },
        },
    }
}

} // verus!
verus! {

// ------------------------------------------------------------------
// Default affinity policy.
// ------------------------------------------------------------------

/// Labels shared by every pod of the cluster instance.
pub open spec fn spec_cluster_pod_labels(cluster_name: Seq<char>) -> Seq<(Seq<char>, Seq<char>)> {
    seq![
        ("app.kubernetes.io/name"@, "odoo"@),
        ("app.kubernetes.io/instance"@, cluster_name),
    ]
}

/// Labels shared by the pods of one role of the cluster instance.
pub open spec fn spec_role_pod_labels(cluster_name: Seq<char>, role: OdooRole) -> Seq<
    (Seq<char>, Seq<char>),
> {
    spec_cluster_pod_labels(cluster_name).push(
        ("app.kubernetes.io/component"@, spec_role_name(role)),
    )
}

pub open spec fn spec_soft_pod_affinity_rule(
    labels: Seq<(Seq<char>, Seq<char>)>,
    weight: i32,
) -> PodAffinityView {
    PodAffinityView {
        preferred: Some(
            seq![
                WeightedPodAffinityTermView {
                    weight: weight,
                    pod_affinity_term: PodAffinityTermView {
                        label_selector: Some(
                            LabelSelectorView { match_labels: Some(labels), match_expressions: None },
                        ),
                        topology_key: "kubernetes.io/hostname"@,
                    },
                },
            ],
        ),
        required: None,
    }
}

/// The default affinity policy of a role: a weight-20 preference to co-locate
/// with any pod of the same cluster instance, and a dominating weight-70
/// preference to spread pods of the same role over distinct hostnames.  Both
/// rules are soft, so they never block scheduling; no hard rules and no node
/// preferences are produced.
pub open spec fn spec_default_affinity(cluster_name: Seq<char>, role: OdooRole) -> StackableAffinityView {
    StackableAffinityView {
        pod_affinity: Some(spec_soft_pod_affinity_rule(spec_cluster_pod_labels(cluster_name), 20)),
        pod_anti_affinity: Some(spec_soft_pod_affinity_rule(spec_role_pod_labels(cluster_name, role), 70)),
        node_affinity: None,
        node_selector: None,
    }
}

fn soft_pod_affinity_rule(labels: Vec<(String, String)>, weight: i32) -> (r: PodAffinity)
    ensures
        pod_affinity_view(r) == spec_soft_pod_affinity_rule(pairs_view(labels@), weight),
{
    let term = WeightedPodAffinityTerm {
        weight,
        pod_affinity_term: PodAffinityTerm {
            label_selector: Some(
                LabelSelector { match_labels: Some(labels), match_expressions: None },
            ),
            topology_key: String::from_str("kubernetes.io/hostname"),
        },
    };
    let ghost term_view = weighted_term_view(term);
    let mut preferred: Vec<WeightedPodAffinityTerm> = Vec::new();
    preferred.push(term);
    proof {
        assert(preferred@.map_values(|t: WeightedPodAffinityTerm| weighted_term_view(t)) =~= seq![
            term_view,
        ]);
    }
    PodAffinity {
        preferred_during_scheduling_ignored_during_execution: Some(preferred),
        required_during_scheduling_ignored_during_execution: None,
    }
}

/// Builds the default affinity policy for a role of a cluster instance.
pub fn get_affinity(cluster_name: &str, role: &OdooRole) -> (r: StackableAffinity)
    ensures
        affinity_view(r) == spec_default_affinity(cluster_name@, *role),
{
    let mut cluster_labels: Vec<(String, String)> = Vec::new();
    cluster_labels.push((String::from_str("app.kubernetes.io/name"), String::from_str("odoo")));
    cluster_labels.push((String::from_str("app.kubernetes.io/instance"), cluster_name.to_owned()));
    proof {
        assert(pairs_view(cluster_labels@) =~= spec_cluster_pod_labels(cluster_name@));
    }
    let mut role_labels: Vec<(String, String)> = Vec::new();
    role_labels.push((String::from_str("app.kubernetes.io/name"), String::from_str("odoo")));
    role_labels.push((String::from_str("app.kubernetes.io/instance"), cluster_name.to_owned()));
    role_labels.push((String::from_str("app.kubernetes.io/component"), role.name()));
    proof {
        assert(pairs_view(role_labels@) =~= spec_role_pod_labels(cluster_name@, *role));
    }
    StackableAffinity {
        pod_affinity: Some(soft_pod_affinity_rule(cluster_labels, 20)),
        pod_anti_affinity: Some(soft_pod_affinity_rule(role_labels, 70)),
        node_affinity: None,
        node_selector: None,
    }
}

/// Law: the default affinity policy is a pure function of the cluster name
/// and the role.  Two invocations on identical inputs yield identical
/// policies.
pub proof fn lemma_default_affinity_deterministic(
    cluster_name: Seq<char>,
    role: OdooRole,
    a: StackableAffinityView,
    b: StackableAffinityView,
)
    requires
        a == spec_default_affinity(cluster_name, role),
        b == spec_default_affinity(cluster_name, role),
    ensures
        a == b,
{
}

// ------------------------------------------------------------------
// Legacy flat node-selector migration.
// ------------------------------------------------------------------

/// The migration of a legacy role-group selector into the affinity block:
/// its label map becomes the node selector and its match expressions become
/// one required node-affinity term, each only where the affinity block does
/// not already set the corresponding field.  The pod (anti-)affinity blocks
/// are untouched, so the legacy selector augments rather than replaces the
/// default rules.
pub open spec fn spec_add_legacy_selector(
    a: StackableAffinityView,
    selector: LabelSelectorView,
) -> StackableAffinityView {
    StackableAffinityView {
        pod_affinity: a.pod_affinity,
        pod_anti_affinity: a.pod_anti_affinity,
        node_affinity: if a.node_affinity is None && selector.match_expressions is Some {
            Some(
                NodeAffinityView {
                    required: Some(
                        seq![NodeSelectorTermView { match_expressions: selector.match_expressions }],
                    ),
                },
            )
        } else {
            a.node_affinity
        },
        node_selector: if a.node_selector is None && selector.match_labels is Some {
            selector.match_labels
        } else {
            a.node_selector
        },
    }
}

impl StackableAffinity {
    /// Translates a legacy flat role-group selector into this affinity
    /// block, as an additive step before the override layers are merged.
    pub fn add_legacy_selector(&mut self, selector: &LabelSelector)
        ensures
            affinity_view(*final(self)) == spec_add_legacy_selector(
                affinity_view(*old(self)),
                label_selector_view(*selector),
            ),
    {
        if self.node_selector.is_none() {
            if let Some(labels) = &selector.match_labels {
                self.node_selector = Some(StackableNodeSelector { node_selector: clone_pairs(labels) });
            }
        }
        if self.node_affinity.is_none() {
            if let Some(exprs) = &selector.match_expressions {
                let mut terms: Vec<NodeSelectorTerm> = Vec::new();
                terms.push(NodeSelectorTerm { match_expressions: Some(clone_match_expressions(exprs)) });
                proof {
                    assert(terms@.map_values(|t: NodeSelectorTerm| node_selector_term_view(t)) =~= seq![
                        NodeSelectorTermView {
                            match_expressions: Some(match_expressions_view(exprs@)),
                        },
                    ]);
                }
                self.node_affinity = Some(
                    NodeAffinity {
                        required_during_scheduling_ignored_during_execution: Some(
                            NodeSelector { node_selector_terms: terms },
                        ),
                    },
                );
            }
        }
    }
}

} // verus!
