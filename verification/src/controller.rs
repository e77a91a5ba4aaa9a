//! The cluster reconciler's planning core: per-role and per-role-group
//! resource generation, the database-readiness gate, and status-condition
//! computation.  The external resource manager applies the planned
//! resources, deletes orphans, and re-invokes the loop on watch events.
use crate::auth::{AuthenticationClass, AuthenticationClassProvider};
use crate::crd::{
    spec_cluster_name, spec_rolegroup_object_name, OdooCluster, OdooClusterAuthenticationConfig,
    OdooClusterStatus, RoleGroupRef,
};
use crate::k8s::{
    condition_view, conditions_view, Action, ClusterCondition, ClusterConditionStatus,
    ClusterConditionType, ClusterConditionView, ConfigMap, ObjectMeta, ResourceRequirements,
    Service, ServicePort, ServiceSpec,
};
use crate::labels::{
    build_recommended_labels, role_group_selector_labels, role_selector_labels,
    spec_recommended_labels, spec_role_group_selector_labels, spec_role_selector_labels,
};
use crate::odoodb::{OdooDBStatus, OdooDBStatusCondition};
use crate::role::{spec_role_name, OdooRole};
use crate::string_map::StringMap;
use crate::strutil::{clone_opt_string, opt_str_view};
use vstd::prelude::*;
use vstd::string::*;

verus! {

/// Name of the controller driving the cluster resource.
pub const AIRFLOW_CONTROLLER_NAME: &'static str = "odoocluster";

/// Base name the product image is resolved against.
pub const DOCKER_IMAGE_BASE_NAME: &'static str = "odoo";

/// Name of the metrics port of every role-group service.
pub const METRICS_PORT_NAME: &'static str = "metrics";

/// Port of the metrics side-car.
pub const METRICS_PORT: i32 = 9102;

/// Name of the volume carrying the rendered configuration.
pub const CONFIG_VOLUME_NAME: &'static str = "config";

/// Name of the volume carrying the logging configuration.
pub const LOG_CONFIG_VOLUME_NAME: &'static str = "log-config";

/// Name of the volume the containers log into.
pub const LOG_VOLUME_NAME: &'static str = "log";

/// Errors of the cluster reconciler's planning core.  Failures of the
/// external apply/get calls stay with the surrounding loop.
#[derive(Clone, Debug, PartialEq, Eq)]
pub enum Error {
    /// The addressed role is not declared in the cluster spec.
    NoOdooRole,
    /// The cluster object lacks the metadata an owner reference needs.
    ObjectMissingMetadataForOwnerRef,
    /// The referenced authentication class has a provider other than LDAP.
    AuthenticationClassProviderNotSupported {
        authentication_class_provider: String,
        authentication_class: String,
    },
    /// A configuration entry of the role-group cannot be rendered.
    BuildRoleGroupConfigFile { rolegroup: RoleGroupRef, key: String },
    /// Configuration resolution for a role-group failed.
    FailedToResolveConfig { source: crate::crd::Error },
    /// Deriving the companion database resource failed.
    CreateOdooDBObject { source: crate::odoodb::Error },
}

/// The error category of a planning error.
pub open spec fn spec_error_category(e: Error) -> Seq<char> {
    match e {
        Error::NoOdooRole => "NoOdooRole"@,
        Error::ObjectMissingMetadataForOwnerRef => "ObjectMissingMetadataForOwnerRef"@,
        Error::AuthenticationClassProviderNotSupported { .. } => "AuthenticationClassProviderNotSupported"@,
        Error::BuildRoleGroupConfigFile { .. } => "BuildRoleGroupConfigFile"@,
        Error::FailedToResolveConfig { .. } => "FailedToResolveConfig"@,
        Error::CreateOdooDBObject { .. } => "CreateOdooDBObject"@,
    }
}

impl Error {
    /// A short, stable category name for error reporting.
    pub fn category(&self) -> (r: &'static str)
        ensures
            r@ == spec_error_category(*self),
    {
        match self {
            Error::NoOdooRole => "NoOdooRole",
            Error::ObjectMissingMetadataForOwnerRef => "ObjectMissingMetadataForOwnerRef",
            Error::AuthenticationClassProviderNotSupported { .. } => "AuthenticationClassProviderNotSupported",
            Error::BuildRoleGroupConfigFile { .. } => "BuildRoleGroupConfigFile",
            Error::FailedToResolveConfig { .. } => "FailedToResolveConfig",
            Error::CreateOdooDBObject { .. } => "CreateOdooDBObject",
        }
    }
}

/// After an error the reconcile is retried after a fixed backoff.
pub fn error_policy() -> (r: Action)
    ensures
        r == (Action::Requeue { seconds: 5u64 }),
{
    Action::Requeue { seconds: 5 }
}

/// Whether a cluster references the named authentication class.
pub fn references_authentication_class(
    authentication_config: &Option<OdooClusterAuthenticationConfig>,
    authentication_class_name: &str,
) -> (r: bool)
    ensures
        r == (match *authentication_config {
            Some(c) => opt_str_view(c.authentication_class) == Some(authentication_class_name@),
            None => false,
        }),
{
    match authentication_config {
        Some(c) => crate::strutil::opt_str_is(&c.authentication_class, authentication_class_name),
        None => false,
    }
}

// ------------------------------------------------------------------
// The database-readiness gate.
// ------------------------------------------------------------------

/// Whether the cluster reconciler must wait for the database: it proceeds
/// only once the bootstrap reports `Ready`.  A missing status, a pending or
/// running initialization, and a failed initialization all block.
pub open spec fn spec_db_blocks_reconcile(status: Option<OdooDBStatus>) -> bool {
    match status {
        Some(s) => s.condition != OdooDBStatusCondition::Ready,
        None => true,
    }
}

/// Decides the database-readiness gate.
pub fn db_blocks_reconcile(status: &Option<OdooDBStatus>) -> (r: bool)
    ensures
        r == spec_db_blocks_reconcile(*status),
{
    match status {
        Some(s) => match s.condition {
            OdooDBStatusCondition::Pending | OdooDBStatusCondition::Initializing => true,
            OdooDBStatusCondition::Failed => true,
            OdooDBStatusCondition::Ready => false,
        },
        None => true,
    }
}

/// The availability condition the database state maps to: unknown before
/// the bootstrap starts, false while it runs or after it failed, true once
/// it is ready.
pub open spec fn spec_db_condition(status: Option<OdooDBStatus>) -> ClusterConditionView {
    match status {
        Some(s) => match s.condition {
            OdooDBStatusCondition::Pending | OdooDBStatusCondition::Initializing => ClusterConditionView {
                type_: ClusterConditionType::Available,
                status: ClusterConditionStatus::False,
                message: Some("Waiting for OdooDB initialization to complete"@),
            },
            OdooDBStatusCondition::Failed => ClusterConditionView {
                type_: ClusterConditionType::Available,
                status: ClusterConditionStatus::False,
                message: Some("Odoo database initialization failed."@),
            },
            OdooDBStatusCondition::Ready => ClusterConditionView {
                type_: ClusterConditionType::Available,
                status: ClusterConditionStatus::True,
                message: Some("Odoo database initialization ready."@),
            },
        },
        None => ClusterConditionView {
            type_: ClusterConditionType::Available,
            status: ClusterConditionStatus::Unknown,
            message: Some("Waiting for Odoo database initialization to start."@),
        },
    }
}

/// Builds the availability condition for a database state.
pub fn build_db_condition(status: &Option<OdooDBStatus>) -> (r: ClusterCondition)
    ensures
        condition_view(r) == spec_db_condition(*status),
{
    let (s, message) = match status {
        Some(st) => match st.condition {
            OdooDBStatusCondition::Pending | OdooDBStatusCondition::Initializing => (
                ClusterConditionStatus::False,
                String::from_str("Waiting for OdooDB initialization to complete"),
            ),
            OdooDBStatusCondition::Failed => (
                ClusterConditionStatus::False,
                String::from_str("Odoo database initialization failed."),
            ),
            OdooDBStatusCondition::Ready => (
                ClusterConditionStatus::True,
                String::from_str("Odoo database initialization ready."),
            ),
        },
        None => (
            ClusterConditionStatus::Unknown,
            String::from_str("Waiting for Odoo database initialization to start."),
        ),
    };
    ClusterCondition { type_: ClusterConditionType::Available, status: s, message: Some(message) }
}

/// The full condition set written to the cluster status: the availability
/// condition, then the cluster-operation switches.
pub open spec fn spec_cluster_conditions(
    available: ClusterConditionView,
    op: crate::crd::ClusterOperation,
) -> Seq<ClusterConditionView> {
    seq![
        available,
        ClusterConditionView {
            type_: ClusterConditionType::ReconciliationPaused,
            status: if op.reconciliation_paused {
                ClusterConditionStatus::True
            } else {
                ClusterConditionStatus::False
            },
            message: None,
        },
        ClusterConditionView {
            type_: ClusterConditionType::Stopped,
            status: if op.stopped {
                ClusterConditionStatus::True
            } else {
                ClusterConditionStatus::False
            },
            message: None,
        },
    ]
}

/// Builds the cluster status for an availability condition.
pub fn build_cluster_status(
    available: ClusterCondition,
    op: &crate::crd::ClusterOperation,
) -> (r: OdooClusterStatus)
    ensures
        conditions_view(r.conditions@) == spec_cluster_conditions(condition_view(available), *op),
{
    let ghost available_view = condition_view(available);
    let mut conditions: Vec<ClusterCondition> = Vec::new();
    conditions.push(available);
    conditions.push(
        ClusterCondition {
            type_: ClusterConditionType::ReconciliationPaused,
            status: if op.reconciliation_paused {
                ClusterConditionStatus::True
            } else {
                ClusterConditionStatus::False
            },
            message: None,
        },
    );
    conditions.push(
        ClusterCondition {
            type_: ClusterConditionType::Stopped,
            status: if op.stopped {
                ClusterConditionStatus::True
            } else {
                ClusterConditionStatus::False
            },
            message: None,
        },
    );
    proof {
        assert(conditions_view(conditions@) =~= spec_cluster_conditions(available_view, *op));
    }
    OdooClusterStatus { conditions }
}

// ------------------------------------------------------------------
// Services.
// ------------------------------------------------------------------

/// The single HTTP port entry of a role service.
pub open spec fn spec_role_ports(port: u16) -> Seq<(Option<Seq<char>>, int, Option<Seq<char>>)> {
    seq![(Some("odoo"@), port as int, Some("TCP"@))]
}

pub open spec fn service_ports_view(s: Seq<ServicePort>) -> Seq<
    (Option<Seq<char>>, int, Option<Seq<char>>),
> {
    s.map_values(
        |p: ServicePort| (opt_str_view(p.name), p.port as int, opt_str_view(p.protocol)),
    )
}

/// Builds the port list of a role service.
pub fn role_ports(port: u16) -> (r: Vec<ServicePort>)
    ensures
        service_ports_view(r@) == spec_role_ports(port),
{
    let mut r: Vec<ServicePort> = Vec::new();
    r.push(
        ServicePort {
            name: Some(String::from_str("odoo")),
            port: port as i32,
            protocol: Some(String::from_str("TCP")),
        },
    );
    proof {
        assert(service_ports_view(r@) =~= spec_role_ports(port));
    }
    r
}

/// The HTTP port of a role, if it exposes one.  Only roles with a port get
/// a cluster-wide service.
pub fn role_port(role: &OdooRole) -> (r: Option<u16>)
    ensures
        r == crate::role::spec_role_http_port(*role),
{
    role.get_http_port()
}

/// Builds the role-level service: the stable client entry point of a role,
/// named `{cluster}-{role}`, typed by the listener class, selecting every
/// pod of the role.  Fails exactly when the cluster object has no name to
/// hang the owner reference on.
pub fn build_role_service(
    odoo: &OdooCluster,
    resolved_product_image: &crate::crd::ResolvedProductImage,
    role: &OdooRole,
    port: u16,
) -> (r: Result<Service, Error>)
    ensures
        r is Ok <==> odoo.metadata.name is Some,
        r is Ok ==> ({
            let svc = r->Ok_0;
            &&& opt_str_view(svc.metadata.name) == Some(
                spec_cluster_name(*odoo) + "-"@ + spec_role_name(*role),
            )
            &&& opt_str_view(svc.metadata.namespace) == opt_str_view(odoo.metadata.namespace)
            &&& svc.metadata.owner_referenced
            &&& crate::affinity::pairs_view(svc.metadata.labels@) == spec_recommended_labels(
                spec_cluster_name(*odoo),
                "odoocluster"@,
                resolved_product_image.app_version_label@,
                spec_role_name(*role),
                "global"@,
            )
            &&& opt_str_view(svc.spec.type_) == Some(
                crate::crd::spec_k8s_service_type(odoo.spec.cluster_config.listener_class),
            )
            &&& svc.spec.cluster_ip is None
            &&& service_ports_view(svc.spec.ports@) == spec_role_ports(port)
            &&& crate::affinity::pairs_view(svc.spec.selector@) == spec_role_selector_labels(
                spec_cluster_name(*odoo),
                spec_role_name(*role),
            )
            &&& svc.spec.publish_not_ready_addresses is None
        }),
{
    if odoo.metadata.name.is_none() {
        return Err(Error::ObjectMissingMetadataForOwnerRef);
    }
    let cluster_name = odoo.name_any();
    let role_svc_name = cluster_name.clone().concat("-").concat(role.as_str());
    Ok(
        Service {
            metadata: ObjectMeta {
                name: Some(role_svc_name),
                namespace: clone_opt_string(&odoo.metadata.namespace),
                labels: build_recommended_labels(
                    cluster_name.as_str(),
                    AIRFLOW_CONTROLLER_NAME,
                    resolved_product_image.app_version_label.as_str(),
                    role.as_str(),
                    "global",
                ),
                owner_referenced: true,
            },
            spec: ServiceSpec {
                type_: Some(odoo.spec.cluster_config.listener_class.k8s_service_type()),
                cluster_ip: None,
                ports: role_ports(port),
                selector: role_selector_labels(cluster_name.as_str(), role.as_str()),
                publish_not_ready_addresses: None,
            },
        },
    )
}

/// Builds the role-group service: a headless service for direct access to
/// the role-group's pods, always exposing the metrics port and, for roles
/// with an HTTP port, the HTTP port.  Fails exactly when the cluster
/// object has no name.
pub fn build_rolegroup_service(
    odoo: &OdooCluster,
    resolved_product_image: &crate::crd::ResolvedProductImage,
    role: &OdooRole,
    rolegroup: &RoleGroupRef,
) -> (r: Result<Service, Error>)
    ensures
        r is Ok <==> odoo.metadata.name is Some,
        r is Ok ==> ({
            let svc = r->Ok_0;
            &&& opt_str_view(svc.metadata.name) == Some(spec_rolegroup_object_name(*rolegroup))
            &&& opt_str_view(svc.metadata.namespace) == opt_str_view(odoo.metadata.namespace)
            &&& svc.metadata.owner_referenced
            &&& crate::affinity::pairs_view(svc.metadata.labels@) == spec_recommended_labels(
                spec_cluster_name(*odoo),
                "odoocluster"@,
                resolved_product_image.app_version_label@,
                rolegroup.role@,
                rolegroup.role_group@,
            ).push(("prometheus.io/scrape"@, "true"@))
            &&& opt_str_view(svc.spec.type_) == Some("ClusterIP"@)
            &&& opt_str_view(svc.spec.cluster_ip) == Some("None"@)
            &&& service_ports_view(svc.spec.ports@) == seq![
                (Some("metrics"@), 9102int, Some("TCP"@)),
            ] + (match crate::role::spec_role_http_port(*role) {
                Some(p) => spec_role_ports(p),
                None => Seq::empty(),
            })
            &&& crate::affinity::pairs_view(svc.spec.selector@) == spec_role_group_selector_labels(
                spec_cluster_name(*odoo),
                rolegroup.role@,
                rolegroup.role_group@,
            )
            &&& svc.spec.publish_not_ready_addresses == Some(true)
        }),
{
    if odoo.metadata.name.is_none() {
        return Err(Error::ObjectMissingMetadataForOwnerRef);
    }
    let cluster_name = odoo.name_any();
    let mut ports: Vec<ServicePort> = Vec::new();
    ports.push(
        ServicePort {
            name: Some(METRICS_PORT_NAME.to_owned()),
            port: METRICS_PORT,
            protocol: Some(String::from_str("TCP")),
        },
    );
    if let Some(http_port) = role_port(role) {
        ports.push(
            ServicePort {
                name: Some(String::from_str("odoo")),
                port: http_port as i32,
                protocol: Some(String::from_str("TCP")),
            },
        );
    }
    proof {
        assert(service_ports_view(ports@) =~= seq![(Some("metrics"@), 9102int, Some("TCP"@))]
            + (match crate::role::spec_role_http_port(*role) {
            Some(p) => spec_role_ports(p),
            None => Seq::empty(),
        }));
    }
    let mut labels = build_recommended_labels(
        cluster_name.as_str(),
        AIRFLOW_CONTROLLER_NAME,
        resolved_product_image.app_version_label.as_str(),
        rolegroup.role.as_str(),
        rolegroup.role_group.as_str(),
    );
    labels.push((String::from_str("prometheus.io/scrape"), String::from_str("true")));
    proof {
        assert(crate::affinity::pairs_view(labels@) =~= spec_recommended_labels(
            spec_cluster_name(*odoo),
            "odoocluster"@,
            resolved_product_image.app_version_label@,
            rolegroup.role@,
            rolegroup.role_group@,
        ).push(("prometheus.io/scrape"@, "true"@)));
    }
    Ok(
        Service {
            metadata: ObjectMeta {
                name: Some(rolegroup.object_name()),
                namespace: clone_opt_string(&odoo.metadata.namespace),
                labels,
                owner_referenced: true,
            },
            spec: ServiceSpec {
                type_: Some(String::from_str("ClusterIP")),
                cluster_ip: Some(String::from_str("None")),
                ports,
                selector: role_group_selector_labels(
                    cluster_name.as_str(),
                    rolegroup.role.as_str(),
                    rolegroup.role_group.as_str(),
                ),
                publish_not_ready_addresses: Some(true),
            },
        },
    )
}

} // verus!
verus! {

/// The authentication settings of a cluster, as an owned option for use in
/// contracts.
pub open spec fn spec_auth_config_of(c: OdooCluster) -> Option<OdooClusterAuthenticationConfig> {
    c.spec.cluster_config.authentication_config
}

/// The rendered configuration file of a role-group: the file-kind
/// properties with the authentication section added, rendered by the
/// configuration writer.
pub open spec fn spec_rolegroup_config_file(
    file_entries: Seq<(Seq<char>, Seq<char>)>,
    ac: Option<OdooClusterAuthenticationConfig>,
    cls: Option<AuthenticationClass>,
) -> Option<Seq<char>> {
    match crate::pyconfig::spec_config_lines(
        crate::pyconfig::spec_add_odoo_config(file_entries, ac, cls),
    ) {
        Some(lines) => Some(crate::pyconfig::spec_imports() + lines),
        None => None,
    }
}

/// Builds the role-group config map: the rendered webserver configuration
/// under its fixed file name, addressed by the role-group's object name.
/// Fails exactly when some configuration entry cannot be rendered (the
/// first offending key is reported) or, after that, when the cluster
/// object has no name to hang the owner reference on.
pub fn build_rolegroup_config_map(
    odoo: &OdooCluster,
    resolved_product_image: &crate::crd::ResolvedProductImage,
    rolegroup: &RoleGroupRef,
    file_config: StringMap,
    authentication_class: Option<&AuthenticationClass>,
) -> (r: Result<ConfigMap, Error>)
    requires
        file_config.wf(),
    ensures
        ({
            let rendered = spec_rolegroup_config_file(
                file_config.entries_view(),
                spec_auth_config_of(*odoo),
                match authentication_class {
                    Some(c) => Some(*c),
                    None => None,
                },
            );
            &&& (r is Ok <==> (rendered is Some && odoo.metadata.name is Some))
            &&& (r is Ok ==> {
                let cm = r->Ok_0;
                &&& opt_str_view(cm.metadata.name) == Some(spec_rolegroup_object_name(*rolegroup))
                &&& opt_str_view(cm.metadata.namespace) == opt_str_view(odoo.metadata.namespace)
                &&& cm.metadata.owner_referenced
                &&& crate::affinity::pairs_view(cm.metadata.labels@) == spec_recommended_labels(
                    spec_cluster_name(*odoo),
                    "odoocluster"@,
                    resolved_product_image.app_version_label@,
                    rolegroup.role@,
                    rolegroup.role_group@,
                )
                &&& crate::affinity::pairs_view(cm.data@) == seq![
                    ("webserver_config.py"@, rendered->0),
                ]
            })
            &&& (r is Err && rendered is Some ==> r->Err_0
                == Error::ObjectMissingMetadataForOwnerRef)
            &&& (r is Err && rendered is None ==> r->Err_0 matches Error::BuildRoleGroupConfigFile {
                ..
            })
        }),
{
    let mut config = file_config;
    crate::pyconfig::add_odoo_config(
        &mut config,
        odoo.spec.cluster_config.authentication_config.as_ref(),
        authentication_class,
    );
    let config_file = match crate::pyconfig::write_webserver_config(&config) {
        Ok(f) => f,
        Err(e) => {
            return Err(
                Error::BuildRoleGroupConfigFile { rolegroup: rolegroup.clone_ref(), key: e.key },
            );
        },
    };
    if odoo.metadata.name.is_none() {
        return Err(Error::ObjectMissingMetadataForOwnerRef);
    }
    let cluster_name = odoo.name_any();
    let mut data: Vec<(String, String)> = Vec::new();
    data.push((String::from_str("webserver_config.py"), config_file));
    proof {
        assert(crate::affinity::pairs_view(data@) =~= seq![
            (
                "webserver_config.py"@,
                spec_rolegroup_config_file(
                    file_config.entries_view(),
                    spec_auth_config_of(*odoo),
                    match authentication_class {
                        Some(c) => Some(*c),
                        None => None,
                    },
                )->0,
            ),
        ]);
    }
    Ok(
        ConfigMap {
            metadata: ObjectMeta {
                name: Some(rolegroup.object_name()),
                namespace: clone_opt_string(&odoo.metadata.namespace),
                labels: build_recommended_labels(
                    cluster_name.as_str(),
                    AIRFLOW_CONTROLLER_NAME,
                    resolved_product_image.app_version_label.as_str(),
                    rolegroup.role.as_str(),
                    rolegroup.role_group.as_str(),
                ),
                owner_referenced: true,
            },
            data,
        },
    )
}

/// Checks that the referenced authentication class can be wired into the
/// pod: only LDAP providers are supported; the secret volumes themselves
/// are mounted by the external resource manager.
pub fn add_authentication_volumes_and_volume_mounts(
    authentication_class: &AuthenticationClass,
) -> (r: Result<(), Error>)
    ensures
        r is Ok <==> authentication_class.provider matches AuthenticationClassProvider::Ldap(_),
        r is Err ==> r->Err_0 matches Error::AuthenticationClassProviderNotSupported { .. },
{
    match &authentication_class.provider {
        AuthenticationClassProvider::Ldap(_) => Ok(()),
        _ => Err(
            Error::AuthenticationClassProviderNotSupported {
                authentication_class_provider: authentication_class.provider.provider_name(),
                authentication_class: authentication_class.name.clone(),
            },
        ),
    }
}

} // verus!
verus! {

// ------------------------------------------------------------------
// The role-group workload.
// ------------------------------------------------------------------

pub open spec fn requirements_view(rr: ResourceRequirements) -> (
    Option<Seq<char>>,
    Option<Seq<char>>,
    Option<Seq<char>>,
    Option<Seq<char>>,
) {
    (
        opt_str_view(rr.cpu_request),
        opt_str_view(rr.cpu_limit),
        opt_str_view(rr.memory_request),
        opt_str_view(rr.memory_limit),
    )
}

pub open spec fn container_ports_view(s: Seq<(String, i32)>) -> Seq<(Seq<char>, int)> {
    s.map_values(|p: (String, i32)| (p.0@, p.1 as int))
}

fn fixed_requirements(
    cpu_request: &str,
    cpu_limit: &str,
    memory_request: &str,
    memory_limit: &str,
) -> (r: ResourceRequirements)
    ensures
        requirements_view(r) == (
            Some(cpu_request@),
            Some(cpu_limit@),
            Some(memory_request@),
            Some(memory_limit@),
        ),
{
    ResourceRequirements {
        cpu_request: Some(cpu_request.to_owned()),
        cpu_limit: Some(cpu_limit.to_owned()),
        memory_request: Some(memory_request.to_owned()),
        memory_limit: Some(memory_limit.to_owned()),
    }
}

/// The main application container of a role-group pod: role start commands
/// behind a shell, the property/mapped/static environment, the
/// configuration and log mounts, the resolved resource limits, and - for
/// roles with an HTTP port - the port and its probes.
pub open spec fn spec_main_container(
    c: crate::k8s::ContainerSpec,
    odoo: OdooCluster,
    role: OdooRole,
    env_entries: Seq<(Seq<char>, Seq<char>)>,
    cfg: crate::config::OdooConfigView,
    image: Seq<char>,
) -> bool {
    &&& c.name@ == "odoo"@
    &&& opt_str_view(c.image) == Some(image)
    &&& crate::affinity::strings_view(c.command@) == seq!["/bin/bash"@]
    &&& crate::affinity::strings_view(c.args@) == seq![
        "-c"@,
        crate::strutil::spec_join(
            seq![
                crate::role::spec_copy_config_command(),
                crate::role::spec_role_start_command(role),
            ],
            "; "@,
        ),
    ]
    &&& crate::k8s::env_vars_view(c.env@) == crate::envs::spec_env_entries_vars(env_entries)
        + crate::envs::spec_mapped_envs(odoo, env_entries) + crate::envs::spec_static_envs()
    &&& crate::k8s::mounts_view(c.volume_mounts@) == crate::crd::spec_cluster_volume_mounts(odoo)
        + seq![
        ("config"@, "/stackable/app/config"@),
        ("log-config"@, "/stackable/app/log_config"@),
        ("log"@, "/stackable/log"@),
    ]
    &&& c.resources matches Some(rr) && requirements_view(rr) == (
        Some(cfg.resources.cpu_min),
        Some(cfg.resources.cpu_max),
        Some(cfg.resources.memory_limit),
        Some(cfg.resources.memory_limit),
    )
    &&& (match crate::role::spec_role_http_port(role) {
        Some(p) => {
            &&& container_ports_view(c.container_ports@) == seq![("http"@, p as int)]
            &&& c.readiness_probe == Some(
                crate::k8s::Probe { tcp_port: p, initial_delay_seconds: 20, period_seconds: 5 },
            )
            &&& c.liveness_probe == Some(
                crate::k8s::Probe { tcp_port: p, initial_delay_seconds: 20, period_seconds: 5 },
            )
        },
        None => {
            &&& container_ports_view(c.container_ports@) == Seq::<(Seq<char>, int)>::empty()
            &&& c.readiness_probe is None
            &&& c.liveness_probe is None
        },
    })
}

/// The metrics side-car: the statsd exporter behind a shell, exposing the
/// metrics port, with small fixed resources.
pub open spec fn spec_metrics_container(c: crate::k8s::ContainerSpec, image: Seq<char>) -> bool {
    &&& c.name@ == "metrics"@
    &&& opt_str_view(c.image) == Some(image)
    &&& crate::affinity::strings_view(c.command@) == seq!["/bin/bash"@, "-c"@]
    &&& crate::affinity::strings_view(c.args@) == seq!["/stackable/statsd_exporter"@]
    &&& crate::k8s::env_vars_view(c.env@) == Seq::<crate::k8s::EnvVarView>::empty()
    &&& crate::k8s::mounts_view(c.volume_mounts@) == Seq::<(Seq<char>, Seq<char>)>::empty()
    &&& container_ports_view(c.container_ports@) == seq![("metrics"@, 9102int)]
    &&& c.resources matches Some(rr) && requirements_view(rr) == (
        Some("100m"@),
        Some("200m"@),
        Some("64Mi"@),
        Some("64Mi"@),
    )
    &&& c.readiness_probe is None
    &&& c.liveness_probe is None
}

/// The git-sync side-car: the synchronization arguments of the first (and
/// only honored) git-sync source joined into one shell argument, the git
/// credential environment, and the checkout volume mounted at the git
/// root.
pub open spec fn spec_gitsync_container(
    c: crate::k8s::ContainerSpec,
    g: crate::crd::GitSyncView,
    env_entries: Seq<(Seq<char>, Seq<char>)>,
    image: Seq<char>,
) -> bool {
    &&& c.name@ == "gitsync-1"@
    &&& opt_str_view(c.image) == Some(image)
    &&& crate::affinity::strings_view(c.command@) == seq!["/bin/bash"@, "-c"@]
    &&& crate::affinity::strings_view(c.args@) == seq![
        crate::strutil::spec_join(crate::crd::spec_gitsync_args(g), " "@),
    ]
    &&& crate::k8s::env_vars_view(c.env@) == crate::envs::spec_gitsync_envs(env_entries)
    &&& crate::k8s::mounts_view(c.volume_mounts@) == seq![("content-from-git"@, "/tmp/git"@)]
    &&& container_ports_view(c.container_ports@) == Seq::<(Seq<char>, int)>::empty()
    &&& c.resources matches Some(rr) && requirements_view(rr) == (
        Some("100m"@),
        Some("200m"@),
        Some("64Mi"@),
        Some("64Mi"@),
    )
    &&& c.readiness_probe is None
    &&& c.liveness_probe is None
}

/// The log-agent side-car, wired up in detail by the external resource
/// manager; the core fixes its name and resources.
pub open spec fn spec_vector_container(c: crate::k8s::ContainerSpec, image: Seq<char>) -> bool {
    &&& c.name@ == "vector"@
    &&& opt_str_view(c.image) == Some(image)
    &&& c.resources matches Some(rr) && requirements_view(rr) == (
        Some("250m"@),
        Some("500m"@),
        Some("128Mi"@),
        Some("128Mi"@),
    )
}

/// The pod volumes of a role-group: the cluster's extra volumes, the
/// configuration and log volumes, and the shared git checkout when a
/// git-sync source is configured.
pub open spec fn spec_rolegroup_volumes(
    odoo: OdooCluster,
    object_name: Seq<char>,
) -> Seq<crate::k8s::VolumeView> {
    crate::crd::spec_cluster_volumes(odoo) + seq![
        crate::k8s::VolumeView {
            name: "config"@,
            source: crate::k8s::VolumeSourceView::FromConfigMap(object_name),
        },
        crate::k8s::VolumeView {
            name: "log-config"@,
            source: crate::k8s::VolumeSourceView::FromConfigMap(object_name),
        },
        crate::k8s::VolumeView { name: "log"@, source: crate::k8s::VolumeSourceView::EmptyDir },
    ] + if odoo.spec.cluster_config.dags_git_sync@.len() > 0 {
        seq![
            crate::k8s::VolumeView {
                name: "content-from-git"@,
                source: crate::k8s::VolumeSourceView::EmptyDir,
            },
        ]
    } else {
        Seq::empty()
    }
}

/// The planned replica count of a role-group: the declared count, if any.
pub open spec fn spec_rolegroup_replicas(role_entry: crate::crd::Role, rg_name: Seq<char>) -> Option<
    i32,
> {
    match crate::crd::spec_find_role_group(role_entry.role_groups@, rg_name) {
        Some(rg) => match rg.replicas {
            Some(n) => Some(n as i32),
            None => None,
        },
        None => None,
    }
}

/// Builds the role-group workload: a stateful set whose pod template runs
/// the main container, the metrics side-car, the git-sync side-car when a
/// git-sync source is configured (only the first source is honored), and
/// the log-agent side-car when logging enables it.  Fails exactly when the
/// addressed role is not declared, when a referenced authentication class
/// is not LDAP, or when the cluster object has no name.
pub fn build_server_rolegroup_statefulset(
    odoo: &OdooCluster,
    resolved_product_image: &crate::crd::ResolvedProductImage,
    odoo_role: &OdooRole,
    rolegroup_ref: &RoleGroupRef,
    env_config: &StringMap,
    authentication_class: Option<&AuthenticationClass>,
    sa_name: &str,
    config: &crate::config::OdooConfig,
) -> (r: Result<crate::k8s::StatefulSet, Error>)
    ensures
        r is Ok <==> (crate::crd::spec_get_role(*odoo, *odoo_role) is Some
            && odoo.metadata.name is Some && (match authentication_class {
            Some(c) => c.provider matches AuthenticationClassProvider::Ldap(_),
            None => true,
        })),
        r is Ok ==> ({
            let sts = r->Ok_0;
            let object_name = spec_rolegroup_object_name(*rolegroup_ref);
            let role_entry = crate::crd::spec_get_role(*odoo, *odoo_role)->0;
            let gitsync = odoo.spec.cluster_config.dags_git_sync@.len() > 0;
            let vector = config.logging.enable_vector_agent;
            let n_containers = 2 + (if gitsync {
                1int
            } else {
                0int
            }) + (if vector {
                1int
            } else {
                0int
            });
            &&& opt_str_view(sts.metadata.name) == Some(object_name)
            &&& opt_str_view(sts.metadata.namespace) == opt_str_view(odoo.metadata.namespace)
            &&& sts.metadata.owner_referenced
            &&& crate::affinity::pairs_view(sts.metadata.labels@) == spec_recommended_labels(
                spec_cluster_name(*odoo),
                "odoocluster"@,
                resolved_product_image.app_version_label@,
                rolegroup_ref.role@,
                rolegroup_ref.role_group@,
            ).push(("restarter.stackable.tech/enabled"@, "true"@))
            &&& opt_str_view(sts.spec.pod_management_policy) == Some("Parallel"@)
            &&& sts.spec.replicas == spec_rolegroup_replicas(role_entry, rolegroup_ref.role_group@)
            &&& crate::affinity::pairs_view(sts.spec.selector_match_labels@)
                == spec_role_group_selector_labels(
                spec_cluster_name(*odoo),
                rolegroup_ref.role@,
                rolegroup_ref.role_group@,
            )
            &&& sts.spec.service_name@ == object_name
            &&& crate::affinity::pairs_view(sts.spec.template.labels@) == spec_recommended_labels(
                spec_cluster_name(*odoo),
                "odoocluster"@,
                resolved_product_image.app_version_label@,
                rolegroup_ref.role@,
                rolegroup_ref.role_group@,
            )
            &&& opt_str_view(sts.spec.template.service_account_name) == Some(sa_name@)
            &&& sts.spec.template.security_context == Some(
                crate::k8s::PodSecurityContext {
                    run_as_user: 1000,
                    run_as_group: 0,
                    fs_group: Some(1000),
                },
            )
            &&& sts.spec.template.restart_policy is None
            &&& (sts.spec.template.affinity matches Some(a) && crate::affinity::affinity_view(a)
                == crate::config::config_view(*config).affinity)
            &&& crate::k8s::volumes_view(sts.spec.template.volumes@) == spec_rolegroup_volumes(
                *odoo,
                object_name,
            )
            &&& sts.spec.template.containers@.len() == n_containers
            &&& spec_main_container(
                sts.spec.template.containers@[0],
                *odoo,
                *odoo_role,
                env_config.entries_view(),
                crate::config::config_view(*config),
                resolved_product_image.image@,
            )
            &&& spec_metrics_container(sts.spec.template.containers@[1], resolved_product_image.image@)
            &&& gitsync ==> spec_gitsync_container(
                sts.spec.template.containers@[2],
                crate::crd::git_sync_view(odoo.spec.cluster_config.dags_git_sync@[0]),
                env_config.entries_view(),
                resolved_product_image.image@,
            )
            &&& vector ==> spec_vector_container(
                sts.spec.template.containers@[n_containers - 1],
                resolved_product_image.image@,
            )
        }),
{
    let role_entry = match odoo.get_role(odoo_role) {
        Some(re) => re,
        None => {
            return Err(Error::NoOdooRole);
        },
    };
    if let Some(cls) = authentication_class {
        // Wiring LDAP secret volumes is the resource manager's part; the
        // core only rejects unsupported providers.
        add_authentication_volumes_and_volume_mounts(cls)?;
    }
    if odoo.metadata.name.is_none() {
        return Err(Error::ObjectMissingMetadataForOwnerRef);
    }
    let cluster_name = odoo.name_any();
    let object_name = rolegroup_ref.object_name();

    // The main container.
    let commands = odoo_role.get_commands();
    let mut args: Vec<String> = Vec::new();
    args.push(String::from_str("-c"));
    args.push(crate::strutil::join_strings(&commands, "; "));
    let mut command: Vec<String> = Vec::new();
    command.push(String::from_str("/bin/bash"));
    let mut env = crate::envs::envs_from_entries(env_config);
    let mut env_mapped = crate::envs::build_mapped_envs(odoo, env_config);
    let mut env_static = crate::envs::build_static_envs();
    env.append(&mut env_mapped);
    env.append(&mut env_static);
    let mut volume_mounts = odoo.volume_mounts();
    volume_mounts.push(crate::k8s::volume_mount(CONFIG_VOLUME_NAME, crate::crd::CONFIG_PATH));
    volume_mounts.push(
        crate::k8s::volume_mount(LOG_CONFIG_VOLUME_NAME, crate::crd::LOG_CONFIG_DIR),
    );
    volume_mounts.push(crate::k8s::volume_mount(LOG_VOLUME_NAME, crate::crd::STACKABLE_LOG_DIR));
    let mut container_ports: Vec<(String, i32)> = Vec::new();
    let mut readiness_probe: Option<crate::k8s::Probe> = None;
    let mut liveness_probe: Option<crate::k8s::Probe> = None;
    if let Some(http_port) = odoo_role.get_http_port() {
        container_ports.push((String::from_str("http"), http_port as i32));
        readiness_probe = Some(
            crate::k8s::Probe { tcp_port: http_port, initial_delay_seconds: 20, period_seconds: 5 },
        );
        liveness_probe = Some(
            crate::k8s::Probe { tcp_port: http_port, initial_delay_seconds: 20, period_seconds: 5 },
        );
    }
    let main_container = crate::k8s::ContainerSpec {
        name: crate::role::Container::Odoo.as_str().to_owned(),
        image: Some(resolved_product_image.image.clone()),
        command,
        args,
        env,
        volume_mounts,
        container_ports,
        resources: Some(
            ResourceRequirements {
                cpu_request: Some(config.resources.cpu.min.clone()),
                cpu_limit: Some(config.resources.cpu.max.clone()),
                memory_request: Some(config.resources.memory.limit.clone()),
                memory_limit: Some(config.resources.memory.limit.clone()),
            },
        ),
        readiness_probe,
        liveness_probe,
    };
    proof {
        assert(spec_main_container(
            main_container,
            *odoo,
            *odoo_role,
            env_config.entries_view(),
            crate::config::config_view(*config),
            resolved_product_image.image@,
        )) by {
            assert(crate::affinity::strings_view(main_container.command@) =~= seq!["/bin/bash"@]);
            assert(crate::affinity::strings_view(commands@) =~= seq![
                crate::role::spec_copy_config_command(),
                crate::role::spec_role_start_command(*odoo_role),
            ]);
            assert(crate::affinity::strings_view(main_container.args@) =~= seq![
                "-c"@,
                crate::strutil::spec_join(
                    seq![
                        crate::role::spec_copy_config_command(),
                        crate::role::spec_role_start_command(*odoo_role),
                    ],
                    "; "@,
                ),
            ]);
            assert(crate::k8s::env_vars_view(main_container.env@)
                =~= crate::envs::spec_env_entries_vars(env_config.entries_view())
                + crate::envs::spec_mapped_envs(*odoo, env_config.entries_view())
                + crate::envs::spec_static_envs());
            assert(crate::k8s::mounts_view(main_container.volume_mounts@)
                =~= crate::crd::spec_cluster_volume_mounts(*odoo) + seq![
                ("config"@, "/stackable/app/config"@),
                ("log-config"@, "/stackable/app/log_config"@),
                ("log"@, "/stackable/log"@),
            ]);
            match crate::role::spec_role_http_port(*odoo_role) {
                Some(p) => {
                    assert(container_ports_view(main_container.container_ports@) =~= seq![
                        ("http"@, p as int),
                    ]);
                },
                None => {
                    assert(container_ports_view(main_container.container_ports@) =~= Seq::<
                        (Seq<char>, int),
                    >::empty());
                },
            }
        }
    }

    // The metrics side-car.
    let mut metrics_command: Vec<String> = Vec::new();
    metrics_command.push(String::from_str("/bin/bash"));
    metrics_command.push(String::from_str("-c"));
    let mut metrics_args: Vec<String> = Vec::new();
    metrics_args.push(String::from_str("/stackable/statsd_exporter"));
    let mut metrics_ports: Vec<(String, i32)> = Vec::new();
    metrics_ports.push((String::from_str("metrics"), METRICS_PORT));
    let metrics_container = crate::k8s::ContainerSpec {
        name: String::from_str("metrics"),
        image: Some(resolved_product_image.image.clone()),
        command: metrics_command,
        args: metrics_args,
        env: Vec::new(),
        volume_mounts: Vec::new(),
        container_ports: metrics_ports,
        resources: Some(fixed_requirements("100m", "200m", "64Mi", "64Mi")),
        readiness_probe: None,
        liveness_probe: None,
    };
    proof {
        assert(spec_metrics_container(metrics_container, resolved_product_image.image@)) by {
            assert(crate::affinity::strings_view(metrics_container.command@) =~= seq![
                "/bin/bash"@,
                "-c"@,
            ]);
            assert(crate::affinity::strings_view(metrics_container.args@) =~= seq![
                "/stackable/statsd_exporter"@,
            ]);
            assert(crate::k8s::env_vars_view(metrics_container.env@) =~= Seq::<
                crate::k8s::EnvVarView,
            >::empty());
            assert(crate::k8s::mounts_view(metrics_container.volume_mounts@) =~= Seq::<
                (Seq<char>, Seq<char>),
            >::empty());
            assert(container_ports_view(metrics_container.container_ports@) =~= seq![
                ("metrics"@, 9102int),
            ]);
        }
    }

    // Pod volumes.
    let mut volumes = odoo.volumes();
    volumes.push(
        crate::k8s::Volume {
            name: CONFIG_VOLUME_NAME.to_owned(),
            source: crate::k8s::VolumeSource::FromConfigMap { config_map_name: object_name.clone() },
        },
    );
    volumes.push(
        crate::k8s::Volume {
            name: LOG_CONFIG_VOLUME_NAME.to_owned(),
            source: crate::k8s::VolumeSource::FromConfigMap { config_map_name: object_name.clone() },
        },
    );
    volumes.push(
        crate::k8s::Volume {
            name: LOG_VOLUME_NAME.to_owned(),
            source: crate::k8s::VolumeSource::EmptyDir,
        },
    );

    let mut containers: Vec<crate::k8s::ContainerSpec> = Vec::new();
    containers.push(main_container);
    containers.push(metrics_container);

    if let Some(gitsync) = odoo.git_sync() {
        let mut gitsync_command: Vec<String> = Vec::new();
        gitsync_command.push(String::from_str("/bin/bash"));
        gitsync_command.push(String::from_str("-c"));
        let gitsync_arg_list = gitsync.get_args();
        let mut gitsync_args: Vec<String> = Vec::new();
        gitsync_args.push(crate::strutil::join_strings(&gitsync_arg_list, " "));
        let mut gitsync_mounts: Vec<crate::k8s::VolumeMount> = Vec::new();
        gitsync_mounts.push(crate::k8s::volume_mount(crate::crd::GIT_CONTENT, crate::crd::GIT_ROOT));
        let gitsync_container = crate::k8s::ContainerSpec {
            name: String::from_str("gitsync-1"),
            image: Some(resolved_product_image.image.clone()),
            command: gitsync_command,
            args: gitsync_args,
            env: crate::envs::build_gitsync_envs(env_config),
            volume_mounts: gitsync_mounts,
            container_ports: Vec::new(),
            resources: Some(fixed_requirements("100m", "200m", "64Mi", "64Mi")),
            readiness_probe: None,
            liveness_probe: None,
        };
        proof {
            assert(spec_gitsync_container(
                gitsync_container,
                crate::crd::git_sync_view(odoo.spec.cluster_config.dags_git_sync@[0]),
                env_config.entries_view(),
                resolved_product_image.image@,
            )) by {
                assert(crate::affinity::strings_view(gitsync_container.command@) =~= seq![
                    "/bin/bash"@,
                    "-c"@,
                ]);
                assert(crate::affinity::strings_view(gitsync_container.args@) =~= seq![
                    crate::strutil::spec_join(
                        crate::crd::spec_gitsync_args(
                            crate::crd::git_sync_view(odoo.spec.cluster_config.dags_git_sync@[0]),
                        ),
                        " "@,
                    ),
                ]);
                assert(crate::k8s::mounts_view(gitsync_container.volume_mounts@) =~= seq![
                    ("content-from-git"@, "/tmp/git"@),
                ]);
                assert(container_ports_view(gitsync_container.container_ports@) =~= Seq::<
                    (Seq<char>, int),
                >::empty());
            }
        }
        volumes.push(
            crate::k8s::Volume {
                name: crate::crd::GIT_CONTENT.to_owned(),
                source: crate::k8s::VolumeSource::EmptyDir,
            },
        );
        containers.push(gitsync_container);
    }

    if config.logging.enable_vector_agent {
        let vector_container = crate::k8s::ContainerSpec {
            name: crate::role::Container::Vector.as_str().to_owned(),
            image: Some(resolved_product_image.image.clone()),
            command: Vec::new(),
            args: Vec::new(),
            env: Vec::new(),
            volume_mounts: Vec::new(),
            container_ports: Vec::new(),
            resources: Some(fixed_requirements("250m", "500m", "128Mi", "128Mi")),
            readiness_probe: None,
            liveness_probe: None,
        };
        containers.push(vector_container);
    }

    proof {
        assert(crate::k8s::volumes_view(volumes@) =~= spec_rolegroup_volumes(
            *odoo,
            spec_rolegroup_object_name(*rolegroup_ref),
        ));
    }

    // The declared replica count of the role-group.
    let ghost rgs = role_entry.role_groups@;
    let ghost rg_name = rolegroup_ref.role_group@;
    let mut replicas: Option<i32> = None;
    let mut found: bool = false;
    let n = role_entry.role_groups.len();
    let mut i: usize = 0;
    while i < n
        invariant
            n == rgs.len(),
            rgs == role_entry.role_groups@,
            rg_name == rolegroup_ref.role_group@,
            i <= n,
            !found ==> (forall|j: int| 0 <= j < i ==> rgs[j].0@ != rg_name) && replicas is None,
            found ==> exists|j: int|
                0 <= j < i && (#[trigger] rgs[j].0@) == rg_name && (forall|k: int|
                    0 <= k < j ==> rgs[k].0@ != rg_name) && replicas == (match rgs[j].1.replicas {
                    Some(m) => Some(m as i32),
                    None => None,
                }),
        decreases n - i,
    {
        if !found {
            let entry_name: &String = &role_entry.role_groups[i].0;
            let is_match = crate::strutil::str_eq(
                entry_name.as_str(),
                rolegroup_ref.role_group.as_str(),
            );
            proof {
                assert(*entry_name == rgs[i as int].0);
            }
            if is_match {
                found = true;
                replicas = match role_entry.role_groups[i].1.replicas {
                    Some(m) => Some(m as i32),
                    None => None,
                };
                proof {
                    let witness = i as int;
                    assert(0 <= witness < i + 1 && rgs[witness].0@ == rg_name);
                }
            }
        }
        i += 1;
    }
    proof {
        if found {
            let j = choose|j: int|
                0 <= j < rgs.len() && (#[trigger] rgs[j].0@) == rg_name && (forall|k: int|
                    0 <= k < j ==> rgs[k].0@ != rg_name) && replicas == (match rgs[j].1.replicas {
                    Some(m) => Some(m as i32),
                    None => None,
                });
            crate::crd::lemma_find_role_group_at(rgs, rg_name, j);
        } else {
            crate::crd::lemma_find_role_group_none(rgs, rg_name);
        }
    }

    Ok(
        crate::k8s::StatefulSet {
            metadata: ObjectMeta {
                name: Some(object_name.clone()),
                namespace: clone_opt_string(&odoo.metadata.namespace),
                labels: {
                    let mut labels = build_recommended_labels(
                        cluster_name.as_str(),
                        AIRFLOW_CONTROLLER_NAME,
                        resolved_product_image.app_version_label.as_str(),
                        rolegroup_ref.role.as_str(),
                        rolegroup_ref.role_group.as_str(),
                    );
                    labels.push(
                        (
                            String::from_str("restarter.stackable.tech/enabled"),
                            String::from_str("true"),
                        ),
                    );
                    proof {
                        assert(crate::affinity::pairs_view(labels@) =~= spec_recommended_labels(
                            spec_cluster_name(*odoo),
                            "odoocluster"@,
                            resolved_product_image.app_version_label@,
                            rolegroup_ref.role@,
                            rolegroup_ref.role_group@,
                        ).push(("restarter.stackable.tech/enabled"@, "true"@)));
                    }
                    labels
                },
                owner_referenced: true,
            },
            spec: crate::k8s::StatefulSetSpec {
                pod_management_policy: Some(String::from_str("Parallel")),
                replicas,
                selector_match_labels: role_group_selector_labels(
                    cluster_name.as_str(),
                    rolegroup_ref.role.as_str(),
                    rolegroup_ref.role_group.as_str(),
                ),
                service_name: object_name,
                template: crate::k8s::PodTemplate {
                    labels: build_recommended_labels(
                        cluster_name.as_str(),
                        AIRFLOW_CONTROLLER_NAME,
                        resolved_product_image.app_version_label.as_str(),
                        rolegroup_ref.role.as_str(),
                        rolegroup_ref.role_group.as_str(),
                    ),
                    containers,
                    volumes,
                    service_account_name: Some(sa_name.to_owned()),
                    security_context: Some(
                        crate::k8s::PodSecurityContext {
                            run_as_user: 1000,
                            run_as_group: 0,
                            fs_group: Some(1000),
                        },
                    ),
                    restart_policy: None,
                    affinity: Some(crate::affinity::clone_affinity(&config.affinity)),
                },
            },
        },
    )
}

} // verus!
verus! {

// ------------------------------------------------------------------
// The reconcile plan.
// ------------------------------------------------------------------

/// The generated resources of one role-group.
#[derive(Clone, Debug, PartialEq, Eq)]
pub struct RoleGroupResources {
    pub rolegroup: RoleGroupRef,
    pub service: Service,
    pub config_map: ConfigMap,
    pub statefulset: crate::k8s::StatefulSet,
}

/// What one reconcile pass asks the resource manager to do: either wait
/// for the database (recording why) or apply the full resource set.
/// Resources absent from an `Apply` plan are garbage-collected by the
/// resource manager; a `Wait` plan applies nothing.
#[derive(Clone, Debug, PartialEq, Eq)]
pub enum ReconcilePlan {
    Wait { status: OdooClusterStatus },
    Apply {
        role_services: Vec<Service>,
        role_groups: Vec<RoleGroupResources>,
        status: OdooClusterStatus,
    },
}

/// The outcome of a reconcile pass: the companion database resource to
/// ensure, the plan, the count of ignored extra git-sync entries (the
/// user-visible diagnostic for them), and the follow-up action.
#[derive(Clone, Debug, PartialEq, Eq)]
pub struct OdooReconcileOutcome {
    pub db: crate::odoodb::OdooDB,
    pub plan: ReconcilePlan,
    pub ignored_git_sync_entries: usize,
    pub action: Action,
}

/// The declared (role, role-group name, role-group) triples of one role.
pub open spec fn spec_role_pairs(role_entry: Option<crate::crd::Role>, role: OdooRole) -> Seq<
    (OdooRole, Seq<char>, crate::crd::RoleGroup),
> {
    match role_entry {
        Some(re) => re.role_groups@.map_values(
            |p: (String, crate::crd::RoleGroup)| (role, p.0@, p.1),
        ),
        None => Seq::empty(),
    }
}

/// Every declared (role, role-group) pair of the cluster, in role order.
pub open spec fn spec_declared_rolegroups(c: OdooCluster) -> Seq<
    (OdooRole, Seq<char>, crate::crd::RoleGroup),
> {
    spec_role_pairs(c.spec.webservers, OdooRole::Webserver) + spec_role_pairs(
        c.spec.schedulers,
        OdooRole::Scheduler,
    ) + spec_role_pairs(c.spec.workers, OdooRole::Worker)
}

/// The resources of one role-group address the role-group's object name
/// and carry its declared replica count.
pub open spec fn spec_rolegroup_resources_ok(
    g: RoleGroupResources,
    c: OdooCluster,
    role: OdooRole,
    rg_name: Seq<char>,
    rg: crate::crd::RoleGroup,
) -> bool {
    let object_name = spec_cluster_name(c) + "-"@ + spec_role_name(role) + "-"@ + rg_name;
    let image = "odoo"@ + ":"@ + crate::crd::spec_app_version_label(c.spec.image);
    &&& g.rolegroup.cluster@ == spec_cluster_name(c)
    &&& g.rolegroup.role@ == spec_role_name(role)
    &&& g.rolegroup.role_group@ == rg_name
    &&& opt_str_view(g.service.metadata.name) == Some(object_name)
    &&& opt_str_view(g.config_map.metadata.name) == Some(object_name)
    &&& g.config_map.data@.len() == 1
    &&& g.config_map.data@[0].0@ == "webserver_config.py"@
    &&& opt_str_view(g.statefulset.metadata.name) == Some(object_name)
    &&& g.statefulset.spec.service_name@ == object_name
    &&& g.statefulset.spec.replicas == (match rg.replicas {
        Some(n) => Some(n as i32),
        None => None,
    })
    &&& g.statefulset.spec.template.containers@.len() >= 2
    &&& spec_main_container(
        g.statefulset.spec.template.containers@[0],
        c,
        role,
        crate::envs::spec_compute_env(c),
        crate::crd::spec_merged_config(c, role, rg_name),
        image,
    )
    &&& spec_metrics_container(g.statefulset.spec.template.containers@[1], image)
    &&& (c.spec.cluster_config.dags_git_sync@.len() > 0 ==> g.statefulset.spec.template.containers@.len()
        >= 3 && spec_gitsync_container(
        g.statefulset.spec.template.containers@[2],
        crate::crd::git_sync_view(c.spec.cluster_config.dags_git_sync@[0]),
        crate::envs::spec_compute_env(c),
        image,
    ))
}

/// The availability condition once every generated resource was handed to
/// the resource manager; actual workload readiness is tracked by the
/// manager's own condition machinery.
pub open spec fn spec_all_applied_condition() -> ClusterConditionView {
    ClusterConditionView {
        type_: ClusterConditionType::Available,
        status: ClusterConditionStatus::True,
        message: None,
    }
}

fn plan_role(
    odoo: &OdooCluster,
    resolved_product_image: &crate::crd::ResolvedProductImage,
    role: OdooRole,
    role_entry: &crate::crd::Role,
    authentication_class: Option<&AuthenticationClass>,
    sa_name: &str,
) -> (r: Result<(Option<Service>, Vec<RoleGroupResources>), Error>)
    requires
        crate::crd::spec_get_role(*odoo, role) == Some(*role_entry),
        crate::crd::spec_role_groups_unique(*role_entry),
        odoo.metadata.name is Some,
        resolved_product_image.image@ == "odoo"@ + ":"@ + crate::crd::spec_app_version_label(
            odoo.spec.image,
        ),
        match authentication_class {
            Some(c) => c.provider matches AuthenticationClassProvider::Ldap(_),
            None => true,
        },
    ensures
        r is Ok,
        ({
            let (svc, groups) = r->Ok_0;
            &&& (match crate::role::spec_role_http_port(role) {
                Some(_) => svc is Some && opt_str_view(svc->0.metadata.name) == Some(
                    spec_cluster_name(*odoo) + "-"@ + spec_role_name(role),
                ),
                None => svc is None,
            })
            &&& groups@.len() == role_entry.role_groups@.len()
            &&& (forall|i: int|
                0 <= i < groups@.len() ==> spec_rolegroup_resources_ok(
                    #[trigger] groups@[i],
                    *odoo,
                    role,
                    role_entry.role_groups@[i].0@,
                    role_entry.role_groups@[i].1,
                ))
        }),
{
    let svc: Option<Service> = match role_port(&role) {
        Some(port) => {
            match build_role_service(odoo, resolved_product_image, &role, port) {
                Ok(s) => Some(s),
                Err(e) => {
                    return Err(e);
                },
            }
        },
        None => None,
    };
    let cluster_name = odoo.name_any();
    let ghost rgs = role_entry.role_groups@;
    let mut groups: Vec<RoleGroupResources> = Vec::new();
    let n = role_entry.role_groups.len();
    let mut i: usize = 0;
    while i < n
        invariant
            crate::crd::spec_get_role(*odoo, role) == Some(*role_entry),
            crate::crd::spec_role_groups_unique(*role_entry),
            odoo.metadata.name is Some,
            match authentication_class {
                Some(c) => c.provider matches AuthenticationClassProvider::Ldap(_),
                None => true,
            },
            cluster_name@ == spec_cluster_name(*odoo),
            resolved_product_image.image@ == "odoo"@ + ":"@ + crate::crd::spec_app_version_label(
                odoo.spec.image,
            ),
            n == rgs.len(),
            rgs == role_entry.role_groups@,
            i <= n,
            groups@.len() == i,
            forall|j: int|
                0 <= j < i ==> spec_rolegroup_resources_ok(
                    #[trigger] groups@[j],
                    *odoo,
                    role,
                    rgs[j].0@,
                    rgs[j].1,
                ),
        decreases n - i,
    {
        let rg_name = &role_entry.role_groups[i].0;
        let rg = &role_entry.role_groups[i].1;
        let rolegroup = RoleGroupRef {
            cluster: cluster_name.clone(),
            role: role.name(),
            role_group: rg_name.clone(),
        };
        let config = match odoo.merged_config(&role, &rolegroup) {
            Ok(c) => c,
            Err(e) => {
                return Err(Error::FailedToResolveConfig { source: e });
            },
        };
        let env_config = rg.config.config.compute_env(odoo);
        let file_config = rg.config.config.compute_files(odoo);
        let service = match build_rolegroup_service(odoo, resolved_product_image, &role, &rolegroup) {
            Ok(s) => s,
            Err(e) => {
                return Err(e);
            },
        };
        proof {
            crate::pyconfig::lemma_add_odoo_config_renderable(
                file_config.entries_view(),
                spec_auth_config_of(*odoo),
                match authentication_class {
                    Some(c) => Some(*c),
                    None => None,
                },
            );
        }
        let config_map = match build_rolegroup_config_map(
            odoo,
            resolved_product_image,
            &rolegroup,
            file_config,
            authentication_class,
        ) {
            Ok(cm) => cm,
            Err(e) => {
                return Err(e);
            },
        };
        let statefulset = match build_server_rolegroup_statefulset(
            odoo,
            resolved_product_image,
            &role,
            &rolegroup,
            &env_config,
            authentication_class,
            sa_name,
            &config,
        ) {
            Ok(s) => s,
            Err(e) => {
                return Err(e);
            },
        };
        proof {
            crate::crd::lemma_find_role_group_at(rgs, rgs[i as int].0@, i as int);
        }
        let group = RoleGroupResources { rolegroup, service, config_map, statefulset };
        proof {
            assert(spec_rolegroup_resources_ok(
                group,
                *odoo,
                role,
                rgs[i as int].0@,
                rgs[i as int].1,
            )) by {
                assert(crate::config::config_view(config) == crate::crd::spec_merged_config(
                    *odoo,
                    role,
                    rgs[i as int].0@,
                ));
                assert(group.config_map.data@.len() == crate::affinity::pairs_view(
                    group.config_map.data@,
                ).len());
                assert(crate::affinity::pairs_view(group.config_map.data@)[0]
                    == (group.config_map.data@[0].0@, group.config_map.data@[0].1@));
            }
        }
        groups.push(group);
        i += 1;
    }
    Ok((svc, groups))
}

/// One reconcile pass of the cluster controller.  Derives the companion
/// database resource, gates on the database's readiness, and - once the
/// database is ready - plans the full per-role and per-role-group resource
/// set, with status conditions in either case.  Relies on the data-model
/// invariant that role-group names within a role are unique.  Succeeds for
/// every such cluster whose object has a name and whose referenced
/// authentication class, if any, is an LDAP class; the waiting path needs
/// neither.
pub fn reconcile_odoo(
    odoo: &OdooCluster,
    db_status: &Option<OdooDBStatus>,
    authentication_class: Option<&AuthenticationClass>,
    sa_name: &str,
) -> (r: Result<OdooReconcileOutcome, Error>)
    requires
        crate::crd::spec_cluster_wf(*odoo),
    ensures
        r is Ok <==> (spec_db_blocks_reconcile(*db_status) || (odoo.metadata.name is Some
            && (match authentication_class {
            Some(c) => c.provider matches AuthenticationClassProvider::Ldap(_),
            None => true,
        }))),
        r is Err && odoo.metadata.name is None ==> r->Err_0
            == Error::ObjectMissingMetadataForOwnerRef,
        r is Err && odoo.metadata.name is Some ==> r->Err_0
            matches Error::AuthenticationClassProviderNotSupported { .. },
        r is Ok ==> ({
            let outcome = r->Ok_0;
            &&& opt_str_view(outcome.db.metadata.name) == opt_str_view(odoo.metadata.name)
            &&& !outcome.db.metadata.owner_referenced
            &&& outcome.db.status is None
            &&& outcome.ignored_git_sync_entries == (if odoo.spec.cluster_config.dags_git_sync@.len()
                > 0 {
                odoo.spec.cluster_config.dags_git_sync@.len() - 1
            } else {
                0int
            })
            &&& outcome.action == Action::AwaitChange
            &&& (spec_db_blocks_reconcile(*db_status) <==> outcome.plan matches ReconcilePlan::Wait {
                ..
            })
            &&& (match outcome.plan {
                ReconcilePlan::Wait { status } => conditions_view(status.conditions@)
                    == spec_cluster_conditions(
                    spec_db_condition(*db_status),
                    odoo.spec.cluster_operation,
                ),
                ReconcilePlan::Apply { role_services, role_groups, status } => {
                    &&& role_services@.len() == (if odoo.spec.webservers is Some {
                        1int
                    } else {
                        0int
                    })
                    &&& (odoo.spec.webservers is Some ==> opt_str_view(
                        role_services@[0].metadata.name,
                    ) == Some(spec_cluster_name(*odoo) + "-"@ + "webserver"@))
                    &&& role_groups@.len() == spec_declared_rolegroups(*odoo).len()
                    &&& (forall|i: int|
                        0 <= i < role_groups@.len() ==> spec_rolegroup_resources_ok(
                            #[trigger] role_groups@[i],
                            *odoo,
                            spec_declared_rolegroups(*odoo)[i].0,
                            spec_declared_rolegroups(*odoo)[i].1,
                            spec_declared_rolegroups(*odoo)[i].2,
                        ))
                    &&& conditions_view(status.conditions@) == spec_cluster_conditions(
                        spec_all_applied_condition(),
                        odoo.spec.cluster_operation,
                    )
                },
            })
        }),
{
    let resolved_product_image = odoo.spec.image.resolve(DOCKER_IMAGE_BASE_NAME);
    let db = match crate::odoodb::OdooDB::for_odoo(odoo, &resolved_product_image) {
        Ok(db) => db,
        Err(e) => {
            return Err(Error::CreateOdooDBObject { source: e });
        },
    };
    let ignored_git_sync_entries = odoo.ignored_git_sync_entries();

    if db_blocks_reconcile(db_status) {
        // The hard gate: no role resource is created or updated until the
        // database bootstrap reports ready.
        let status = build_cluster_status(
            build_db_condition(db_status),
            &odoo.spec.cluster_operation,
        );
        return Ok(
            OdooReconcileOutcome {
                db,
                plan: ReconcilePlan::Wait { status },
                ignored_git_sync_entries,
                action: Action::AwaitChange,
            },
        );
    }

    if odoo.metadata.name.is_none() {
        return Err(Error::ObjectMissingMetadataForOwnerRef);
    }
    if let Some(cls) = authentication_class {
        add_authentication_volumes_and_volume_mounts(cls)?;
    }

    let mut role_services: Vec<Service> = Vec::new();
    let mut role_groups: Vec<RoleGroupResources> = Vec::new();

    let ghost pairs_web = spec_role_pairs(odoo.spec.webservers, OdooRole::Webserver);
    let ghost pairs_sched = spec_role_pairs(odoo.spec.schedulers, OdooRole::Scheduler);
    let ghost pairs_work = spec_role_pairs(odoo.spec.workers, OdooRole::Worker);

    if let Some(role_entry) = odoo.get_role(&OdooRole::Webserver) {
        let (svc, mut groups) = match plan_role(
            odoo,
            &resolved_product_image,
            OdooRole::Webserver,
            role_entry,
            authentication_class,
            sa_name,
        ) {
            Ok(x) => x,
            Err(e) => {
                return Err(e);
            },
        };
        if let Some(s) = svc {
            role_services.push(s);
        }
        role_groups.append(&mut groups);
    }
    proof {
        assert(forall|i: int|
            0 <= i < role_groups@.len() ==> spec_rolegroup_resources_ok(
                #[trigger] role_groups@[i],
                *odoo,
                pairs_web[i].0,
                pairs_web[i].1,
                pairs_web[i].2,
            ));
        assert(role_groups@.len() == pairs_web.len());
    }
    let ghost n_web = role_groups@.len() as int;

    if let Some(role_entry) = odoo.get_role(&OdooRole::Scheduler) {
        let (svc, mut groups) = match plan_role(
            odoo,
            &resolved_product_image,
            OdooRole::Scheduler,
            role_entry,
            authentication_class,
            sa_name,
        ) {
            Ok(x) => x,
            Err(e) => {
                return Err(e);
            },
        };
        if let Some(s) = svc {
            role_services.push(s);
        }
        role_groups.append(&mut groups);
    }
    let ghost n_sched = role_groups@.len() as int;

    if let Some(role_entry) = odoo.get_role(&OdooRole::Worker) {
        let (svc, mut groups) = match plan_role(
            odoo,
            &resolved_product_image,
            OdooRole::Worker,
            role_entry,
            authentication_class,
            sa_name,
        ) {
            Ok(x) => x,
            Err(e) => {
                return Err(e);
            },
        };
        if let Some(s) = svc {
            role_services.push(s);
        }
        role_groups.append(&mut groups);
    }

    proof {
        let pairs = spec_declared_rolegroups(*odoo);
        assert(pairs =~= pairs_web + pairs_sched + pairs_work);
        assert(role_groups@.len() == pairs.len());
        assert forall|i: int| 0 <= i < role_groups@.len() implies spec_rolegroup_resources_ok(
            #[trigger] role_groups@[i],
            *odoo,
            pairs[i].0,
            pairs[i].1,
            pairs[i].2,
        ) by {
            if i < n_web {
                assert(pairs[i] == pairs_web[i]);
            } else if i < n_sched {
                assert(pairs[i] == pairs_sched[i - n_web]);
            } else {
                assert(pairs[i] == pairs_work[i - n_sched]);
            }
        }
    }

    let status = build_cluster_status(
        ClusterCondition {
            type_: ClusterConditionType::Available,
            status: ClusterConditionStatus::True,
            message: None,
        },
        &odoo.spec.cluster_operation,
    );

    Ok(
        OdooReconcileOutcome {
            db,
            plan: ReconcilePlan::Apply { role_services, role_groups, status },
            ignored_git_sync_entries,
            action: Action::AwaitChange,
        },
    )
}

} // verus!

verus! {

/// Law (git-sync single source): the git-sync side-car arguments of a
/// planned workload depend on the first configured git-sync source alone;
/// any further entries change nothing but the ignored-entry count that is
/// reported as the user-visible diagnostic.
pub proof fn lemma_git_sync_single_source(a: OdooCluster, b: OdooCluster)
    requires
        a.spec.cluster_config.dags_git_sync@.len() > 0,
        b.spec.cluster_config.dags_git_sync@.len() > 0,
        crate::crd::git_sync_view(a.spec.cluster_config.dags_git_sync@[0])
            == crate::crd::git_sync_view(b.spec.cluster_config.dags_git_sync@[0]),
    ensures
        crate::crd::spec_gitsync_args(
            crate::crd::git_sync_view(a.spec.cluster_config.dags_git_sync@[0]),
        ) == crate::crd::spec_gitsync_args(
            crate::crd::git_sync_view(b.spec.cluster_config.dags_git_sync@[0]),
        ),
{
}

} // verus!
