use odoo_operator::affinity::{
    get_affinity, LabelSelector, MatchExpression, NodeAffinity, NodeSelector, NodeSelectorTerm,
    PodAffinity, PodAffinityTerm, StackableAffinity, StackableNodeSelector,
    WeightedPodAffinityTerm,
};
use odoo_operator::config::empty_fragment;
use odoo_operator::crd::{
    ClusterMeta, CommonConfiguration, CurrentlySupportedListenerClasses, OdooCluster,
    OdooClusterConfig, OdooClusterSpec, ProductImage, Role, RoleGroup, RoleGroupRef,
    ClusterOperation,
};
use odoo_operator::role::OdooRole;

fn simple_role(replicas: Option<u16>, selector: Option<LabelSelector>) -> Role {
    Role {
        config: CommonConfiguration { config: empty_fragment() },
        role_groups: vec![(
            "default".to_string(),
            RoleGroup {
                config: CommonConfiguration { config: empty_fragment() },
                replicas,
                selector,
            },
        )],
    }
}

fn cluster_with_scheduler_selector(selector: Option<LabelSelector>) -> OdooCluster {
    OdooCluster {
        metadata: ClusterMeta {
            name: Some("odoo".to_string()),
            namespace: Some("default".to_string()),
        },
        spec: OdooClusterSpec {
            image: ProductImage {
                product_version: "2.6.1".to_string(),
                stackable_version: Some("0.0.0-dev".to_string()),
            },
            cluster_config: OdooClusterConfig {
                authentication_config: None,
                credentials_secret: "simple-odoo-credentials".to_string(),
                dags_git_sync: vec![],
                database_initialization: None,
                executor: Some("CeleryExecutor".to_string()),
                expose_config: Some(false),
                load_examples: Some(true),
                listener_class: CurrentlySupportedListenerClasses::ClusterInternal,
                vector_aggregator_config_map_name: None,
                volumes: None,
                volume_mounts: None,
            },
            cluster_operation: ClusterOperation {
                reconciliation_paused: false,
                stopped: false,
            },
            webservers: Some(simple_role(Some(1), None)),
            schedulers: Some(simple_role(Some(1), selector)),
            workers: Some(simple_role(Some(2), None)),
        },
        status: None,
    }
}

fn cluster_labels() -> Vec<(String, String)> {
    vec![
        (
            "app.kubernetes.io/name".to_string(),
            "odoo".to_string(),
        ),
        (
            "app.kubernetes.io/instance".to_string(),
            "odoo".to_string(),
        ),
    ]
}

fn soft_rule(labels: Vec<(String, String)>, weight: i32) -> PodAffinity {
    PodAffinity {
        preferred_during_scheduling_ignored_during_execution: Some(vec![WeightedPodAffinityTerm {
            weight,
            pod_affinity_term: PodAffinityTerm {
                label_selector: Some(LabelSelector {
                    match_labels: Some(labels),
                    match_expressions: None,
                }),
                topology_key: "kubernetes.io/hostname".to_string(),
            },
        }]),
        required_during_scheduling_ignored_during_execution: None,
    }
}

#[test]
fn test_affinity_legacy_node_selector() {
    let selector = LabelSelector {
        match_labels: Some(vec![("disktype".to_string(), "ssd".to_string())]),
        match_expressions: Some(vec![MatchExpression {
            key: "topology.kubernetes.io/zone".to_string(),
            operator: "In".to_string(),
            values: Some(vec![
                "antarctica-east1".to_string(),
                "antarctica-west1".to_string(),
            ]),
        }]),
    };
    let odoo = cluster_with_scheduler_selector(Some(selector));

    let mut role_labels = cluster_labels();
    role_labels.push((
        "app.kubernetes.io/component".to_string(),
        "scheduler".to_string(),
    ));
    let expected = StackableAffinity {
        node_affinity: Some(NodeAffinity {
            required_during_scheduling_ignored_during_execution: Some(NodeSelector {
                node_selector_terms: vec![NodeSelectorTerm {
                    match_expressions: Some(vec![MatchExpression {
                        key: "topology.kubernetes.io/zone".to_string(),
                        operator: "In".to_string(),
                        values: Some(vec![
                            "antarctica-east1".to_string(),
                            "antarctica-west1".to_string(),
                        ]),
                    }]),
                }],
            }),
        }),
        node_selector: Some(StackableNodeSelector {
            node_selector: vec![("disktype".to_string(), "ssd".to_string())],
        }),
        pod_affinity: Some(soft_rule(cluster_labels(), 20)),
        pod_anti_affinity: Some(soft_rule(role_labels, 70)),
    };

    let rolegroup_ref = RoleGroupRef {
        cluster: "odoo".to_string(),
        role: "scheduler".to_string(),
        role_group: "default".to_string(),
    };

    let affinity = odoo
        .merged_config(&OdooRole::Scheduler, &rolegroup_ref)
        .unwrap()
        .affinity;

    assert_eq!(affinity, expected);
}

#[test]
fn test_affinity_defaults_without_selector() {
    let odoo = cluster_with_scheduler_selector(None);
    let rolegroup_ref = RoleGroupRef {
        cluster: "odoo".to_string(),
        role: "scheduler".to_string(),
        role_group: "default".to_string(),
    };
    let affinity = odoo
        .merged_config(&OdooRole::Scheduler, &rolegroup_ref)
        .unwrap()
        .affinity;
    let mut role_labels = cluster_labels();
    role_labels.push((
        "app.kubernetes.io/component".to_string(),
        "scheduler".to_string(),
    ));
    let expected = StackableAffinity {
        node_affinity: None,
        node_selector: None,
        pod_affinity: Some(soft_rule(cluster_labels(), 20)),
        pod_anti_affinity: Some(soft_rule(role_labels, 70)),
    };
    assert_eq!(affinity, expected);
}

#[test]
fn test_affinity_builder_is_pure() {
    let first = get_affinity("odoo", &OdooRole::Worker);
    let second = get_affinity("odoo", &OdooRole::Worker);
    assert_eq!(first, second);
}
