//! The database-bootstrap custom resource: its spec, its logging-only
//! configuration, and its explicit status with a four-state condition.
use crate::config::ValidationError;
use crate::crd::{OdooCluster, ProductImage, ResolvedProductImage};
use crate::k8s::ObjectMeta;
use crate::labels::{build_recommended_labels, spec_recommended_labels};
use crate::logging::{
    default_logging, logging_frag_complete, merge_logging, spec_default_logging,
    spec_merge_logging, spec_validate_logging, validate_logging, Logging, LoggingFragment,
};
use crate::strutil::{clone_opt_string, opt_str_view};
use vstd::prelude::*;
use vstd::string::*;

verus! {

/// Name of the controller driving the database-bootstrap resource.
pub const AIRFLOW_DB_CONTROLLER_NAME: &'static str = "odoo-db";

/// Errors of database configuration resolution.
#[derive(Clone, Debug, PartialEq, Eq)]
pub enum Error {
    /// The merged configuration left a required field unset.
    FragmentValidationFailure { source: ValidationError },
}

/// Containers of the database-initialization job pod.
#[derive(Clone, Copy, Debug, PartialEq, Eq, Structural, Hash)]
pub enum Container {
    OdooInitDb,
    Vector,
}

/// The serialized name of a job container.
pub open spec fn spec_db_container_name(c: Container) -> Seq<char> {
    match c {
        Container::OdooInitDb => "odoo-init-db"@,
        Container::Vector => "vector"@,
    }
}

impl Container {
    /// The serialized name of this container.
    pub fn as_str(&self) -> (r: &'static str)
        ensures
            r@ == spec_db_container_name(*self),
    {
        match self {
            Container::OdooInitDb => "odoo-init-db",
            Container::Vector => "vector",
        }
    }
}

/// Resolved configuration of the database-initialization workflow: logging
/// only.
#[derive(Clone, Copy, Debug, PartialEq, Eq, Structural)]
pub struct OdooDbConfig {
    pub logging: Logging,
}

/// Override layer for [`OdooDbConfig`].
#[derive(Clone, Copy, Debug, PartialEq, Eq, Structural)]
pub struct OdooDbConfigFragment {
    pub logging: LoggingFragment,
}

impl OdooDbConfig {
    /// The default layer: default logging.
    pub fn default_config() -> (r: OdooDbConfigFragment)
        ensures
            r.logging == spec_default_logging(),
    {
        OdooDbConfigFragment { logging: default_logging() }
    }
}

/// Desired state of the database bootstrap.
#[derive(Clone, Debug, PartialEq, Eq)]
pub struct OdooDBSpec {
    pub image: ProductImage,
    pub credentials_secret: String,
    pub vector_aggregator_config_map_name: Option<String>,
    pub config: OdooDbConfigFragment,
}

/// The database-bootstrap custom resource.
#[derive(Clone, Debug, PartialEq, Eq)]
pub struct OdooDB {
    pub metadata: ObjectMeta,
    pub spec: OdooDBSpec,
    pub status: Option<OdooDBStatus>,
}

/// The lifecycle condition of the database bootstrap.  `Ready` and
/// `Failed` are terminal: a failed initialization requires operator
/// intervention.
#[derive(Clone, Copy, Debug, PartialEq, Eq, Structural, Hash)]
pub enum OdooDBStatusCondition {
    Pending,
    Initializing,
    Ready,
    Failed,
}

/// Status of the database bootstrap: when it started, and where it stands.
#[derive(Clone, Debug, PartialEq, Eq)]
pub struct OdooDBStatus {
    pub started_at: Option<String>,
    pub condition: OdooDBStatusCondition,
}

impl OdooDBStatus {
    /// The initial status: stamps the given creation time once and starts
    /// in `Pending`.  The clock is read by the caller; the core never
    /// consults it.
    pub fn new(started_at: String) -> (r: OdooDBStatus)
        ensures
            opt_str_view(r.started_at) == Some(started_at@),
            r.condition == OdooDBStatusCondition::Pending,
    {
        OdooDBStatus { started_at: Some(started_at), condition: OdooDBStatusCondition::Pending }
    }

    /// This status advanced to `Initializing`; the start stamp is kept.
    pub fn initializing(&self) -> (r: OdooDBStatus)
        ensures
            opt_str_view(r.started_at) == opt_str_view(self.started_at),
            r.condition == OdooDBStatusCondition::Initializing,
    {
        OdooDBStatus {
            started_at: clone_opt_string(&self.started_at),
            condition: OdooDBStatusCondition::Initializing,
        }
    }

    /// This status advanced to `Ready`; the start stamp is kept.
    pub fn ready(&self) -> (r: OdooDBStatus)
        ensures
            opt_str_view(r.started_at) == opt_str_view(self.started_at),
            r.condition == OdooDBStatusCondition::Ready,
    {
        OdooDBStatus {
            started_at: clone_opt_string(&self.started_at),
            condition: OdooDBStatusCondition::Ready,
        }
    }

    /// This status advanced to `Failed`; the start stamp is kept.
    pub fn failed(&self) -> (r: OdooDBStatus)
        ensures
            opt_str_view(r.started_at) == opt_str_view(self.started_at),
            r.condition == OdooDBStatusCondition::Failed,
    {
        OdooDBStatus {
            started_at: clone_opt_string(&self.started_at),
            condition: OdooDBStatusCondition::Failed,
        }
    }
}

/// The logging layer the companion database resource inherits from the
/// cluster: the cluster's database-initialization override, or an empty
/// layer.
pub open spec fn spec_db_logging_fragment(c: OdooCluster) -> LoggingFragment {
    match c.spec.cluster_config.database_initialization {
        Some(f) => f.logging,
        None => LoggingFragment {
            enable_vector_agent: None,
            main: crate::logging::ContainerLogConfigFragment { level: None },
            vector: crate::logging::ContainerLogConfigFragment { level: None },
        },
    }
}

impl OdooDB {
    /// Derives the companion database resource of a cluster: same name and
    /// namespace, same image, same credentials secret.  The resource is
    /// deliberately not owner-referenced to the cluster, so that it and
    /// the initialized schema survive cluster deletion and recreation.
    pub fn for_odoo(odoo: &OdooCluster, resolved_product_image: &ResolvedProductImage) -> (r:
        Result<OdooDB, Error>)
        ensures
            r is Ok,
            ({
                let db = r->Ok_0;
                &&& opt_str_view(db.metadata.name) == opt_str_view(odoo.metadata.name)
                &&& opt_str_view(db.metadata.namespace) == opt_str_view(odoo.metadata.namespace)
                &&& crate::affinity::pairs_view(db.metadata.labels@) == spec_recommended_labels(
                    crate::crd::spec_cluster_name(*odoo),
                    "odoo-db"@,
                    resolved_product_image.product_version@,
                    "db-initializer"@,
                    "global"@,
                )
                &&& !db.metadata.owner_referenced
                &&& db.spec.image.product_version@ == odoo.spec.image.product_version@
                &&& opt_str_view(db.spec.image.stackable_version) == opt_str_view(
                    odoo.spec.image.stackable_version,
                )
                &&& db.spec.credentials_secret@ == odoo.spec.cluster_config.credentials_secret@
                &&& opt_str_view(db.spec.vector_aggregator_config_map_name) == opt_str_view(
                    odoo.spec.cluster_config.vector_aggregator_config_map_name,
                )
                &&& db.spec.config.logging == spec_db_logging_fragment(*odoo)
                &&& db.status is None
            }),
    {
        let name = odoo.name_any();
        Ok(OdooDB {
            metadata: ObjectMeta {
                name: clone_opt_string(&odoo.metadata.name),
                namespace: clone_opt_string(&odoo.metadata.namespace),
                labels: build_recommended_labels(
                    name.as_str(),
                    "odoo-db",
                    resolved_product_image.product_version.as_str(),
                    "db-initializer",
                    "global",
                ),
                owner_referenced: false,
            },
            spec: OdooDBSpec {
                image: ProductImage {
                    product_version: odoo.spec.image.product_version.clone(),
                    stackable_version: clone_opt_string(&odoo.spec.image.stackable_version),
                },
                credentials_secret: odoo.spec.cluster_config.credentials_secret.clone(),
                vector_aggregator_config_map_name: clone_opt_string(
                    &odoo.spec.cluster_config.vector_aggregator_config_map_name,
                ),
                config: OdooDbConfigFragment {
                    logging: match &odoo.spec.cluster_config.database_initialization {
                        Some(f) => f.logging,
                        None => LoggingFragment {
                            enable_vector_agent: None,
                            main: crate::logging::ContainerLogConfigFragment { level: None },
                            vector: crate::logging::ContainerLogConfigFragment { level: None },
                        },
                    },
                },
            },
            status: None,
        })
    }

    /// The name of the initialization job: the resource's own name.
    pub fn job_name(&self) -> (r: String)
        requires
            self.metadata.name is Some,
        ensures
            Some(r@) == opt_str_view(self.metadata.name),
    {
        match &self.metadata.name {
            Some(n) => n.clone(),
            None => String::new(),
        }
    }

    /// Resolves the database configuration: the declared override layer
    /// over the default layer.  The defaults are complete, so resolution
    /// always succeeds.
    pub fn merged_config(&self) -> (r: Result<OdooDbConfig, Error>)
        ensures
            r is Ok,
            r->Ok_0.logging == spec_merged_db_config(*self),
    {
        let defaults = OdooDbConfig::default_config();
        let merged = merge_logging(&self.spec.config.logging, &defaults.logging);
        match validate_logging(&merged) {
            Ok(logging) => Ok(OdooDbConfig { logging }),
            Err(field_name) => Err(
                Error::FragmentValidationFailure { source: ValidationError { field_name } },
            ),
        }
    }
}

/// The resolved database configuration, over fragments.
pub open spec fn spec_merged_db_config(db: OdooDB) -> Logging {
    spec_validate_logging(spec_merge_logging(db.spec.config.logging, spec_default_logging()))
}

} // verus!
