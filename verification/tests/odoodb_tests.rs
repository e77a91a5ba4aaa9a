use odoo_operator::config::empty_fragment;
use odoo_operator::crd::{
    ClusterMeta, CommonConfiguration, CurrentlySupportedListenerClasses, OdooCluster,
    OdooClusterConfig, OdooClusterSpec, ProductImage, Role, RoleGroup, ClusterOperation,
};
use odoo_operator::logging::{ContainerLogConfigFragment, LogLevel, LoggingFragment};
use odoo_operator::odoodb::{OdooDB, OdooDBStatus, OdooDBStatusCondition, OdooDbConfigFragment};
use odoo_operator::strutil::{dec_u64, eq_ignore_ascii_case, join_strings};

fn cluster() -> OdooCluster {
    OdooCluster {
        metadata: ClusterMeta {
            name: Some("odoo".to_string()),
            namespace: Some("prod".to_string()),
        },
        spec: OdooClusterSpec {
            image: ProductImage {
                product_version: "2.6.1".to_string(),
                stackable_version: Some("0.0.0-dev".to_string()),
            },
            cluster_config: OdooClusterConfig {
                authentication_config: None,
                credentials_secret: "simple-odoo-credentials".to_string(),
                dags_git_sync: vec![],
                database_initialization: Some(OdooDbConfigFragment {
                    logging: LoggingFragment {
                        enable_vector_agent: Some(true),
                        main: ContainerLogConfigFragment {
                            level: Some(LogLevel::Debug),
                        },
                        vector: ContainerLogConfigFragment { level: None },
                    },
                }),
                executor: None,
                expose_config: None,
                load_examples: None,
                listener_class: CurrentlySupportedListenerClasses::ClusterInternal,
                vector_aggregator_config_map_name: Some("vector-cm".to_string()),
                volumes: None,
                volume_mounts: None,
            },
            cluster_operation: ClusterOperation {
                reconciliation_paused: false,
                stopped: false,
            },
            webservers: Some(Role {
                config: CommonConfiguration { config: empty_fragment() },
                role_groups: vec![(
                    "default".to_string(),
                    RoleGroup {
                        config: CommonConfiguration { config: empty_fragment() },
                        replicas: Some(1),
                        selector: None,
                    },
                )],
            }),
            schedulers: None,
            workers: None,
        },
        status: None,
    }
}

#[test]
fn test_for_odoo_inherits_cluster_identity() {
    let odoo = cluster();
    let image = odoo.spec.image.resolve("odoo");
    let db = OdooDB::for_odoo(&odoo, &image).unwrap();
    assert_eq!(Some("odoo".to_string()), db.metadata.name);
    assert_eq!(Some("prod".to_string()), db.metadata.namespace);
    // Deliberately not owned by the cluster: the schema survives cluster
    // deletion and recreation.
    assert!(!db.metadata.owner_referenced);
    assert_eq!("2.6.1", db.spec.image.product_version);
    assert_eq!("simple-odoo-credentials", db.spec.credentials_secret);
    assert_eq!(
        Some("vector-cm".to_string()),
        db.spec.vector_aggregator_config_map_name
    );
    assert_eq!(Some(true), db.spec.config.logging.enable_vector_agent);
    assert_eq!(Some(LogLevel::Debug), db.spec.config.logging.main.level);
    assert!(db.status.is_none());
    assert_eq!("odoo", db.job_name());
}

#[test]
fn test_db_merged_config_fills_defaults() {
    let odoo = cluster();
    let image = odoo.spec.image.resolve("odoo");
    let db = OdooDB::for_odoo(&odoo, &image).unwrap();
    let config = db.merged_config().unwrap();
    // Declared overrides win; unset fields fall back to the defaults.
    assert!(config.logging.enable_vector_agent);
    assert_eq!(LogLevel::Debug, config.logging.main.level);
    assert_eq!(LogLevel::Info, config.logging.vector.level);
}

#[test]
fn test_status_transitions_keep_start_stamp() {
    let initial = OdooDBStatus::new("2024-05-01T12:00:00Z".to_string());
    assert_eq!(OdooDBStatusCondition::Pending, initial.condition);
    let initializing = initial.initializing();
    assert_eq!(OdooDBStatusCondition::Initializing, initializing.condition);
    assert_eq!(initial.started_at, initializing.started_at);
    let ready = initializing.ready();
    assert_eq!(OdooDBStatusCondition::Ready, ready.condition);
    assert_eq!(initial.started_at, ready.started_at);
    let failed = initializing.failed();
    assert_eq!(OdooDBStatusCondition::Failed, failed.condition);
    assert_eq!(initial.started_at, failed.started_at);
}

#[test]
fn test_dec_u64_renders_decimal() {
    assert_eq!("0", dec_u64(0));
    assert_eq!("7", dec_u64(7));
    assert_eq!("20", dec_u64(20));
    assert_eq!("9102", dec_u64(9102));
    assert_eq!("18446744073709551615", dec_u64(u64::MAX));
}

#[test]
fn test_eq_ignore_ascii_case() {
    assert!(eq_ignore_ascii_case("--DEST", "--dest"));
    assert!(eq_ignore_ascii_case("--git-Config", "--git-config"));
    assert!(!eq_ignore_ascii_case("--root", "--roots"));
    assert!(!eq_ignore_ascii_case("--rev", "--dest"));
}

#[test]
fn test_join_strings() {
    let parts = vec!["a".to_string(), "b".to_string(), "c".to_string()];
    assert_eq!("a; b; c", join_strings(&parts, "; "));
    let empty: Vec<String> = vec![];
    assert_eq!("", join_strings(&empty, "; "));
}
