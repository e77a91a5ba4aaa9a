use odoo_operator::auth::{
    AuthenticationClass, AuthenticationClassProvider, LdapAuthenticationProvider, LdapFieldNames,
};
use odoo_operator::config::empty_fragment;
use odoo_operator::controller::{
    db_blocks_reconcile, error_policy, reconcile_odoo, references_authentication_class, Error,
    ReconcilePlan,
};
use odoo_operator::crd::{
    ClusterMeta, CommonConfiguration, CurrentlySupportedListenerClasses, GitSync, OdooCluster,
    OdooClusterAuthenticationConfig, OdooClusterConfig, OdooClusterSpec, ProductImage, Role,
    RoleGroup, ClusterOperation, LdapRolesSyncMoment,
};
use odoo_operator::k8s::{Action, ClusterConditionStatus, ClusterConditionType};
use odoo_operator::odoodb::{OdooDBStatus, OdooDBStatusCondition};
use odoo_operator::string_map::StringMap;

fn webserver_role(replicas: Option<u16>) -> Role {
    Role {
        config: CommonConfiguration { config: empty_fragment() },
        role_groups: vec![(
            "default".to_string(),
            RoleGroup {
                config: CommonConfiguration { config: empty_fragment() },
                replicas,
                selector: None,
            },
        )],
    }
}

fn webserver_cluster() -> OdooCluster {
    OdooCluster {
        metadata: ClusterMeta {
            name: Some("odoo".to_string()),
            namespace: Some("default".to_string()),
        },
        spec: OdooClusterSpec {
            image: ProductImage {
                product_version: "2.6.1".to_string(),
                stackable_version: None,
            },
            cluster_config: OdooClusterConfig {
                authentication_config: None,
                credentials_secret: "simple-odoo-credentials".to_string(),
                dags_git_sync: vec![],
                database_initialization: None,
                executor: Some("CeleryExecutor".to_string()),
                expose_config: None,
                load_examples: None,
                listener_class: CurrentlySupportedListenerClasses::ClusterInternal,
                vector_aggregator_config_map_name: None,
                volumes: None,
                volume_mounts: None,
            },
            cluster_operation: ClusterOperation {
                reconciliation_paused: false,
                stopped: false,
            },
            webservers: Some(webserver_role(Some(1))),
            schedulers: None,
            workers: None,
        },
        status: None,
    }
}

fn ready_status() -> Option<OdooDBStatus> {
    Some(OdooDBStatus {
        started_at: Some("2024-01-01T00:00:00Z".to_string()),
        condition: OdooDBStatusCondition::Ready,
    })
}

fn status_with(condition: OdooDBStatusCondition) -> Option<OdooDBStatus> {
    Some(OdooDBStatus {
        started_at: Some("2024-01-01T00:00:00Z".to_string()),
        condition,
    })
}

#[test]
fn test_gate_blocks_until_ready() {
    assert!(db_blocks_reconcile(&None));
    assert!(db_blocks_reconcile(&status_with(OdooDBStatusCondition::Pending)));
    assert!(db_blocks_reconcile(&status_with(
        OdooDBStatusCondition::Initializing
    )));
    assert!(db_blocks_reconcile(&status_with(OdooDBStatusCondition::Failed)));
    assert!(!db_blocks_reconcile(&ready_status()));
}

#[test]
fn test_gate_produces_no_role_resources() {
    let cluster = webserver_cluster();
    for status in [
        None,
        status_with(OdooDBStatusCondition::Pending),
        status_with(OdooDBStatusCondition::Initializing),
        status_with(OdooDBStatusCondition::Failed),
    ] {
        let outcome = reconcile_odoo(&cluster, &status, None, "odoo-sa").unwrap();
        match outcome.plan {
            ReconcilePlan::Wait { status: cluster_status } => {
                assert_eq!(
                    ClusterConditionType::Available,
                    cluster_status.conditions[0].type_
                );
                assert_ne!(
                    ClusterConditionStatus::True,
                    cluster_status.conditions[0].status
                );
            }
            ReconcilePlan::Apply { .. } => panic!("gate must withhold role resources"),
        }
    }
}

#[test]
fn test_end_to_end_single_webserver() {
    let cluster = webserver_cluster();
    let outcome = reconcile_odoo(&cluster, &ready_status(), None, "odoo-sa").unwrap();
    assert_eq!(Action::AwaitChange, outcome.action);
    assert_eq!(0, outcome.ignored_git_sync_entries);
    assert!(!outcome.db.metadata.owner_referenced);
    match outcome.plan {
        ReconcilePlan::Apply {
            role_services,
            role_groups,
            status,
        } => {
            assert_eq!(1, role_services.len());
            assert_eq!(
                Some("odoo-webserver".to_string()),
                role_services[0].metadata.name
            );
            assert_eq!(1, role_groups.len());
            let group = &role_groups[0];
            assert_eq!(
                Some("odoo-webserver-default".to_string()),
                group.service.metadata.name
            );
            assert_eq!(
                Some("odoo-webserver-default".to_string()),
                group.config_map.metadata.name
            );
            assert_eq!(
                "webserver_config.py",
                group.config_map.data[0].0
            );
            assert_eq!(
                Some("odoo-webserver-default".to_string()),
                group.statefulset.metadata.name
            );
            assert_eq!(Some(1), group.statefulset.spec.replicas);
            assert_eq!(
                ClusterConditionType::Available,
                status.conditions[0].type_
            );
            assert_eq!(ClusterConditionStatus::True, status.conditions[0].status);
        }
        ReconcilePlan::Wait { .. } => panic!("database is ready, resources must be planned"),
    }
}

fn two_git_sync_entries() -> Vec<GitSync> {
    vec![
        GitSync {
            repo: "https://example.com/first".to_string(),
            branch: Some("one".to_string()),
            git_folder: None,
            depth: None,
            wait: None,
            credentials_secret: None,
            git_sync_conf: StringMap::new(),
        },
        GitSync {
            repo: "https://example.com/second".to_string(),
            branch: Some("two".to_string()),
            git_folder: None,
            depth: None,
            wait: None,
            credentials_secret: None,
            git_sync_conf: StringMap::new(),
        },
    ]
}

#[test]
fn test_git_sync_single_source() {
    let mut cluster = webserver_cluster();
    cluster.spec.cluster_config.dags_git_sync = two_git_sync_entries();
    let outcome = reconcile_odoo(&cluster, &ready_status(), None, "odoo-sa").unwrap();
    assert_eq!(1, outcome.ignored_git_sync_entries);
    match outcome.plan {
        ReconcilePlan::Apply { role_groups, .. } => {
            let containers = &role_groups[0].statefulset.spec.template.containers;
            let gitsync = containers
                .iter()
                .find(|c| c.name == "gitsync-1")
                .expect("git-sync side-car expected");
            let args = gitsync.args.join(" ");
            assert!(args.contains("--repo=https://example.com/first"));
            assert!(args.contains("--branch=one"));
            assert!(!args.contains("second"));
            assert!(!args.contains("--branch=two"));
        }
        ReconcilePlan::Wait { .. } => panic!("database is ready, resources must be planned"),
    }
}

#[test]
fn test_reconcile_rejects_nameless_cluster() {
    let mut cluster = webserver_cluster();
    cluster.metadata.name = None;
    let err = reconcile_odoo(&cluster, &ready_status(), None, "odoo-sa").unwrap_err();
    assert_eq!(Error::ObjectMissingMetadataForOwnerRef, err);
    assert_eq!("ObjectMissingMetadataForOwnerRef", err.category());
}

#[test]
fn test_reconcile_rejects_non_ldap_provider() {
    let cluster = webserver_cluster();
    let class = AuthenticationClass {
        name: "static-users".to_string(),
        provider: AuthenticationClassProvider::Static,
    };
    let err = reconcile_odoo(&cluster, &ready_status(), Some(&class), "odoo-sa").unwrap_err();
    match err {
        Error::AuthenticationClassProviderNotSupported {
            authentication_class_provider,
            authentication_class,
        } => {
            assert_eq!("Static", authentication_class_provider);
            assert_eq!("static-users", authentication_class);
        }
        other => panic!("unexpected error {:?}", other),
    }
}

#[test]
fn test_reconcile_accepts_ldap_provider() {
    let mut cluster = webserver_cluster();
    cluster.spec.cluster_config.authentication_config = Some(OdooClusterAuthenticationConfig {
        authentication_class: Some("ldap".to_string()),
        user_registration: true,
        user_registration_role: "Public".to_string(),
        sync_roles_at: LdapRolesSyncMoment::Registration,
    });
    let class = AuthenticationClass {
        name: "ldap".to_string(),
        provider: AuthenticationClassProvider::Ldap(LdapAuthenticationProvider {
            hostname: "openldap.default.svc.cluster.local".to_string(),
            port: None,
            search_base: "ou=users".to_string(),
            search_filter: "".to_string(),
            ldap_field_names: LdapFieldNames {
                uid: "uid".to_string(),
                group: "memberof".to_string(),
                given_name: "givenName".to_string(),
                surname: "sn".to_string(),
                email: "mail".to_string(),
            },
            bind_credentials_secret_class: None,
            tls: None,
        }),
    };
    let outcome = reconcile_odoo(&cluster, &ready_status(), Some(&class), "odoo-sa").unwrap();
    match outcome.plan {
        ReconcilePlan::Apply { role_groups, .. } => {
            // The rendered configuration now selects LDAP authentication.
            let file = &role_groups[0].config_map.data[0].1;
            assert!(file.contains("AUTH_TYPE = AUTH_LDAP\n"));
            assert!(file.contains(
                "AUTH_LDAP_SERVER = 'ldap://openldap.default.svc.cluster.local:389'\n"
            ));
        }
        ReconcilePlan::Wait { .. } => panic!("database is ready, resources must be planned"),
    }
}

#[test]
fn test_references_authentication_class() {
    let config = Some(OdooClusterAuthenticationConfig {
        authentication_class: Some("ldap".to_string()),
        user_registration: true,
        user_registration_role: "Public".to_string(),
        sync_roles_at: LdapRolesSyncMoment::Registration,
    });
    assert!(references_authentication_class(&config, "ldap"));
    assert!(!references_authentication_class(&config, "other"));
    assert!(!references_authentication_class(&None, "ldap"));
}

#[test]
fn test_error_policy_requeues() {
    assert_eq!(Action::Requeue { seconds: 5 }, error_policy());
}

#[test]
fn test_merged_config_unknown_role() {
    let cluster = webserver_cluster();
    let rolegroup = odoo_operator::crd::RoleGroupRef {
        cluster: "odoo".to_string(),
        role: "worker".to_string(),
        role_group: "default".to_string(),
    };
    let err = cluster
        .merged_config(&odoo_operator::role::OdooRole::Worker, &rolegroup)
        .unwrap_err();
    match err {
        odoo_operator::crd::Error::UnknownOdooRole { role, roles } => {
            assert_eq!("worker", role);
            assert_eq!(3, roles.len());
        }
        other => panic!("unexpected error {:?}", other),
    }
}

#[test]
fn test_config_map_reports_unrenderable_key() {
    let cluster = webserver_cluster();
    let image = cluster.spec.image.resolve("odoo");
    let rolegroup = odoo_operator::crd::RoleGroupRef {
        cluster: "odoo".to_string(),
        role: "webserver".to_string(),
        role_group: "default".to_string(),
    };
    let mut file_config = StringMap::new();
    file_config.insert("NOT_A_KNOWN_OPTION".to_string(), "1".to_string());
    let err = odoo_operator::controller::build_rolegroup_config_map(
        &cluster,
        &image,
        &rolegroup,
        file_config,
        None,
    )
    .unwrap_err();
    match err {
        Error::BuildRoleGroupConfigFile { rolegroup, key } => {
            assert_eq!("default", rolegroup.role_group);
            assert_eq!("NOT_A_KNOWN_OPTION", key);
        }
        other => panic!("unexpected error {:?}", other),
    }
}

#[test]
fn test_statefulset_requires_declared_role() {
    let cluster = webserver_cluster();
    let image = cluster.spec.image.resolve("odoo");
    let rolegroup = odoo_operator::crd::RoleGroupRef {
        cluster: "odoo".to_string(),
        role: "worker".to_string(),
        role_group: "default".to_string(),
    };
    let env_config = StringMap::new();
    let config = cluster
        .merged_config(
            &odoo_operator::role::OdooRole::Webserver,
            &odoo_operator::crd::RoleGroupRef {
                cluster: "odoo".to_string(),
                role: "webserver".to_string(),
                role_group: "default".to_string(),
            },
        )
        .unwrap();
    let err = odoo_operator::controller::build_server_rolegroup_statefulset(
        &cluster,
        &image,
        &odoo_operator::role::OdooRole::Worker,
        &rolegroup,
        &env_config,
        None,
        "odoo-sa",
        &config,
    )
    .unwrap_err();
    assert_eq!(Error::NoOdooRole, err);
}

#[test]
fn test_planned_workload_details() {
    let cluster = webserver_cluster();
    let outcome = reconcile_odoo(&cluster, &ready_status(), None, "odoo-sa").unwrap();
    match outcome.plan {
        ReconcilePlan::Apply { role_groups, .. } => {
            let sts = &role_groups[0].statefulset;
            assert!(sts
                .metadata
                .labels
                .contains(&(
                    "app.kubernetes.io/managed-by".to_string(),
                    "odoo.sovrin.cloud_odoocluster".to_string()
                )));
            let main = &sts.spec.template.containers[0];
            assert_eq!("odoo", main.name);
            assert_eq!(Some("odoo:2.6.1".to_string()), main.image);
            assert_eq!(vec!["/bin/bash".to_string()], main.command);
            assert_eq!("-c", main.args[0]);
            assert!(main.args[1].ends_with("odoo webserver"));
            // The property map feeds the env first, then the mapped and the
            // static variables.
            assert_eq!("credentialsSecret", main.env[0].name);
            assert_eq!(
                Some("simple-odoo-credentials".to_string()),
                main.env[0].value
            );
            assert_eq!("AIRFLOW__WEBSERVER__SECRET_KEY", main.env[1].name);
            assert!(main
                .env
                .iter()
                .any(|e| e.name == "AIRFLOW__CORE__LOAD_EXAMPLES"
                    && e.value == Some("False".to_string())));
            assert!(main
                .env
                .iter()
                .any(|e| e.name == "AIRFLOW__METRICS__STATSD_PORT"
                    && e.value == Some("9125".to_string())));
            assert_eq!(
                Some("400m".to_string()),
                main.resources.as_ref().unwrap().cpu_limit
            );
            assert_eq!(8080, main.readiness_probe.as_ref().unwrap().tcp_port);
            assert_eq!("metrics", sts.spec.template.containers[1].name);
            assert_eq!(
                Some("odoo-sa".to_string()),
                sts.spec.template.service_account_name
            );
            assert_eq!("odoo-webserver-default", sts.spec.service_name);
        }
        ReconcilePlan::Wait { .. } => panic!("database is ready, resources must be planned"),
    }
}
