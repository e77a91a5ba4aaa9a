use odoo_operator::config::empty_fragment;
use odoo_operator::crd::{
    ClusterMeta, CommonConfiguration, CurrentlySupportedListenerClasses, GitSync, OdooCluster,
    OdooClusterConfig, OdooClusterSpec, OdooClusterStatus, ProductImage, Role, RoleGroup,
    RoleGroupRef, ClusterOperation,
};
use odoo_operator::odoodb::OdooDB;
use odoo_operator::role::OdooRole;
use odoo_operator::string_map::StringMap;

fn simple_role(replicas: Option<u16>) -> Role {
    Role {
        config: CommonConfiguration { config: empty_fragment() },
        role_groups: vec![(
            "default".to_string(),
            RoleGroup {
                config: CommonConfiguration { config: empty_fragment() },
                replicas,
                selector: None,
            },
        )],
    }
}

fn base_cluster() -> OdooCluster {
    OdooCluster {
        metadata: ClusterMeta {
            name: Some("odoo".to_string()),
            namespace: Some("default".to_string()),
        },
        spec: OdooClusterSpec {
            image: ProductImage {
                product_version: "2.6.1".to_string(),
                stackable_version: Some("0.0.0-dev".to_string()),
            },
            cluster_config: OdooClusterConfig {
                authentication_config: None,
                credentials_secret: "simple-odoo-credentials".to_string(),
                dags_git_sync: vec![],
                database_initialization: None,
                executor: Some("KubernetesExecutor".to_string()),
                expose_config: Some(true),
                load_examples: Some(true),
                listener_class: CurrentlySupportedListenerClasses::ClusterInternal,
                vector_aggregator_config_map_name: None,
                volumes: None,
                volume_mounts: None,
            },
            cluster_operation: ClusterOperation {
                reconciliation_paused: false,
                stopped: false,
            },
            webservers: Some(simple_role(None)),
            schedulers: Some(simple_role(None)),
            workers: Some(simple_role(None)),
        },
        status: None,
    }
}

fn git_sync_entry(conf: StringMap) -> GitSync {
    GitSync {
        repo: "https://github.com/stackabletech/odoo-operator".to_string(),
        branch: Some("feat/git-sync".to_string()),
        git_folder: Some("tests/templates/kuttl/mount-dags-gitsync/dags".to_string()),
        depth: None,
        wait: Some(20),
        credentials_secret: None,
        git_sync_conf: conf,
    }
}

#[test]
fn test_cluster_config() {
    let cluster = base_cluster();

    let resolved_odoo_image = cluster.spec.image.resolve("odoo");

    let odoo_db = OdooDB::for_odoo(&cluster, &resolved_odoo_image).unwrap();
    let resolved_odoo_db_image = odoo_db.spec.image.resolve("odoo");

    assert_eq!("2.6.1", &resolved_odoo_db_image.product_version);
    assert_eq!("2.6.1", &resolved_odoo_image.product_version);
    assert_eq!(
        "KubernetesExecutor",
        cluster.spec.cluster_config.executor.unwrap_or_default()
    );
    assert!(cluster.spec.cluster_config.load_examples.unwrap_or(false));
    assert!(cluster.spec.cluster_config.expose_config.unwrap_or(false));
}

#[test]
fn test_git_sync() {
    let mut cluster = base_cluster();
    cluster.spec.cluster_config.executor = Some("CeleryExecutor".to_string());
    cluster.spec.cluster_config.load_examples = Some(false);
    cluster.spec.cluster_config.expose_config = Some(false);
    cluster.spec.cluster_config.dags_git_sync = vec![git_sync_entry(StringMap::new())];

    assert!(cluster.git_sync().is_some(), "git_sync was not Some!");
    assert_eq!(
        Some("tests/templates/kuttl/mount-dags-gitsync/dags".to_string()),
        cluster.git_sync().unwrap().git_folder
    );
}

#[test]
fn test_git_sync_config() {
    let mut conf = StringMap::new();
    conf.insert(
        "--rev".to_string(),
        "c63921857618a8c392ad757dda13090fff3d879a".to_string(),
    );
    let mut cluster = base_cluster();
    cluster.spec.cluster_config.executor = Some("CeleryExecutor".to_string());
    cluster.spec.cluster_config.dags_git_sync = vec![git_sync_entry(conf)];

    assert!(cluster
        .git_sync()
        .unwrap()
        .get_args()
        .iter()
        .any(|c| c == "--rev=c63921857618a8c392ad757dda13090fff3d879a"));
}

#[test]
fn test_git_sync_args_exact() {
    let gitsync = git_sync_entry(StringMap::new());
    let args = gitsync.get_args();
    assert_eq!(
        args,
        vec![
            "/stackable/git-sync".to_string(),
            "--repo=https://github.com/stackabletech/odoo-operator".to_string(),
            "--branch=feat/git-sync".to_string(),
            "--depth=1".to_string(),
            "--wait=20".to_string(),
            "--dest=current".to_string(),
            "--root=/tmp/git".to_string(),
            "--git-config=safe.directory:/tmp/git".to_string(),
        ]
    );
}

#[test]
fn test_git_sync_args_ignore_internal_keys() {
    let mut conf = StringMap::new();
    conf.insert("--DEST".to_string(), "elsewhere".to_string());
    conf.insert("--root".to_string(), "elsewhere".to_string());
    conf.insert("--rev=HEAD".to_string(), "ignored-value".to_string());
    let gitsync = git_sync_entry(conf);
    let args = gitsync.get_args();
    assert!(!args.iter().any(|a| a.contains("elsewhere")));
    assert!(args.iter().any(|a| a == "--rev=HEAD=ignored-value"));
}

#[test]
fn test_k8s_service_type() {
    assert_eq!(
        "ClusterIP",
        CurrentlySupportedListenerClasses::ClusterInternal.k8s_service_type()
    );
    assert_eq!(
        "NodePort",
        CurrentlySupportedListenerClasses::ExternalUnstable.k8s_service_type()
    );
    assert_eq!(
        "LoadBalancer",
        CurrentlySupportedListenerClasses::ExternalStable.k8s_service_type()
    );
}

#[test]
fn test_role_profiles() {
    assert_eq!(Some(8080), OdooRole::Webserver.get_http_port());
    assert_eq!(None, OdooRole::Scheduler.get_http_port());
    assert_eq!(None, OdooRole::Worker.get_http_port());
    assert_eq!(
        vec![
            "webserver".to_string(),
            "scheduler".to_string(),
            "worker".to_string()
        ],
        OdooRole::roles()
    );
    let commands = OdooRole::Worker.get_commands();
    assert_eq!(2, commands.len());
    assert_eq!(
        "cp -RL /stackable/app/config/webserver_config.py /stackable/odoo/webserver_config.py",
        commands[0]
    );
    assert_eq!("odoo celery worker", commands[1]);
}

#[test]
fn test_rolegroup_object_name() {
    let rolegroup = RoleGroupRef {
        cluster: "odoo".to_string(),
        role: "webserver".to_string(),
        role_group: "default".to_string(),
    };
    assert_eq!("odoo-webserver-default", rolegroup.object_name());
}

#[test]
fn test_node_role_service_name() {
    let cluster = base_cluster();
    assert_eq!(Some("odoo".to_string()), cluster.node_role_service_name());
    let status = OdooClusterStatus { conditions: vec![] };
    assert_eq!(0, status.conditions.len());
}

#[test]
fn test_resolved_image_formula() {
    let image = ProductImage {
        product_version: "2.6.1".to_string(),
        stackable_version: Some("0.0.0-dev".to_string()),
    };
    let resolved = image.resolve("odoo");
    assert_eq!("2.6.1-0.0.0-dev", resolved.app_version_label);
    assert_eq!("odoo:2.6.1-0.0.0-dev", resolved.image);
    let bare = ProductImage {
        product_version: "2.6.1".to_string(),
        stackable_version: None,
    };
    assert_eq!("2.6.1", bare.resolve("odoo").app_version_label);
}
