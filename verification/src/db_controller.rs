//! The database reconciler's planning core: the explicit bootstrap state
//! machine, the initialization job and its config map, and the decision a
//! reconcile pass takes for every state and observation.  The surrounding
//! loop performs the secret lookup, the job poll, and the status patches.
use crate::crd::ResolvedProductImage;
use crate::k8s::{
    env_literal, env_var_from_secret, env_vars_view, mounts_view, spec_env_from_secret,
    spec_env_literal, volume_mount, volumes_view, Action, ConfigMap, ContainerSpec, EnvVar, Job,
    JobState, ObjectMeta, PodSecurityContext, PodTemplate, ResourceRequirements, Volume,
    VolumeSource, VolumeSourceView, VolumeView,
};
use crate::odoodb::{Container, OdooDB, OdooDBStatus, OdooDBStatusCondition};
use crate::strutil::{clone_opt_string, opt_str_view, spec_join};
use vstd::prelude::*;
use vstd::string::*;

verus! {

/// Errors of the database reconciler's planning core.
#[derive(Clone, Debug, PartialEq, Eq)]
pub enum Error {
    /// The database object has no namespace.
    ObjectHasNoNamespace,
    /// The referenced credentials secret was not found; the reconcile is
    /// retried, the state does not change.
    SecretCheck { secret: String },
    /// The state is `Initializing` but the initialization job was not
    /// found.
    GetInitializationJob { init_job: String },
    /// The database object lacks the metadata an owner reference needs.
    ObjectMissingMetadataForOwnerRef,
}

/// The error category of a planning error.
pub open spec fn spec_error_category(e: Error) -> Seq<char> {
    match e {
        Error::ObjectHasNoNamespace => "ObjectHasNoNamespace"@,
        Error::SecretCheck { .. } => "SecretCheck"@,
        Error::GetInitializationJob { .. } => "GetInitializationJob"@,
        Error::ObjectMissingMetadataForOwnerRef => "ObjectMissingMetadataForOwnerRef"@,
    }
}

impl Error {
    /// A short, stable category name for error reporting.
    pub fn category(&self) -> (r: &'static str)
        ensures
            r@ == spec_error_category(*self),
    {
        match self {
            Error::ObjectHasNoNamespace => "ObjectHasNoNamespace",
            Error::SecretCheck { .. } => "SecretCheck",
            Error::GetInitializationJob { .. } => "GetInitializationJob",
            Error::ObjectMissingMetadataForOwnerRef => "ObjectMissingMetadataForOwnerRef",
        }
    }
}

/// After an error the reconcile is retried after a fixed backoff.
pub fn error_policy() -> (r: Action)
    ensures
        r == (Action::Requeue { seconds: 5u64 }),
{
    Action::Requeue { seconds: 5 }
}

// ------------------------------------------------------------------
// The bootstrap state machine.
// ------------------------------------------------------------------

/// What a reconcile pass decides, given the persisted state and the
/// observations of this pass.
#[derive(Clone, Copy, Debug, PartialEq, Eq, Structural)]
pub enum DbDecision {
    /// No status yet: stamp the start time and enter `Pending`.
    StampPending,
    /// `Pending` and the credentials secret exists: apply the init job and
    /// its config map, advance to `Initializing`.
    StartInitialization,
    /// `Pending` but the secret is missing: a retryable error, no
    /// transition.
    RetryLater,
    /// `Initializing` and the job completed: advance to `Ready`.
    MarkReady,
    /// `Initializing` and the job failed: advance to `Failed`.
    MarkFailed,
    /// `Initializing` and the job still runs: explicit no-op.
    KeepWaiting,
    /// `Initializing` but the job is gone: an error, no transition.
    JobMissing,
    /// `Ready` or `Failed` are terminal: explicit no-op.
    Done,
}

/// The decision for every state and observation.  `None` stands for the
/// implicit pre-`Pending` state of a resource without a status.
pub open spec fn spec_db_decision(
    cond: Option<OdooDBStatusCondition>,
    secret_exists: bool,
    job_state: Option<JobState>,
) -> DbDecision {
    match cond {
        None => DbDecision::StampPending,
        Some(OdooDBStatusCondition::Pending) => if secret_exists {
            DbDecision::StartInitialization
        } else {
            DbDecision::RetryLater
        },
        Some(OdooDBStatusCondition::Initializing) => match job_state {
            Some(JobState::Complete) => DbDecision::MarkReady,
            Some(JobState::Failed) => DbDecision::MarkFailed,
            Some(JobState::InProgress) => DbDecision::KeepWaiting,
            None => DbDecision::JobMissing,
        },
        Some(OdooDBStatusCondition::Ready) => DbDecision::Done,
        Some(OdooDBStatusCondition::Failed) => DbDecision::Done,
    }
}

/// Decides one step of the bootstrap state machine.
pub fn db_decision(
    cond: &Option<OdooDBStatusCondition>,
    secret_exists: bool,
    job_state: &Option<JobState>,
) -> (r: DbDecision)
    ensures
        r == spec_db_decision(*cond, secret_exists, *job_state),
{
    match cond {
        None => DbDecision::StampPending,
        Some(OdooDBStatusCondition::Pending) => if secret_exists {
            DbDecision::StartInitialization
        } else {
            DbDecision::RetryLater
        },
        Some(OdooDBStatusCondition::Initializing) => match job_state {
            Some(JobState::Complete) => DbDecision::MarkReady,
            Some(JobState::Failed) => DbDecision::MarkFailed,
            Some(JobState::InProgress) => DbDecision::KeepWaiting,
            None => DbDecision::JobMissing,
        },
        Some(OdooDBStatusCondition::Ready) => DbDecision::Done,
        Some(OdooDBStatusCondition::Failed) => DbDecision::Done,
    }
}

/// Law (state machine totality): for every state - including the implicit
/// pre-`Pending` state of a missing status - and every observation,
/// exactly one transition or explicit no-op is decided, following the
/// lifecycle `Pending` to `Initializing` to `Ready` or `Failed`, with
/// `Ready` and `Failed` terminal and a missing secret or job mapped to a
/// retryable error rather than a transition.
pub proof fn lemma_db_state_machine_total(
    cond: Option<OdooDBStatusCondition>,
    secret_exists: bool,
    job_state: Option<JobState>,
)
    ensures
        cond is None ==> spec_db_decision(cond, secret_exists, job_state)
            == DbDecision::StampPending,
        cond == Some(OdooDBStatusCondition::Pending) && secret_exists ==> spec_db_decision(
            cond,
            secret_exists,
            job_state,
        ) == DbDecision::StartInitialization,
        cond == Some(OdooDBStatusCondition::Pending) && !secret_exists ==> spec_db_decision(
            cond,
            secret_exists,
            job_state,
        ) == DbDecision::RetryLater,
        cond == Some(OdooDBStatusCondition::Initializing) ==> spec_db_decision(
            cond,
            secret_exists,
            job_state,
        ) == (match job_state {
            Some(JobState::Complete) => DbDecision::MarkReady,
            Some(JobState::Failed) => DbDecision::MarkFailed,
            Some(JobState::InProgress) => DbDecision::KeepWaiting,
            None => DbDecision::JobMissing,
        }),
        cond == Some(OdooDBStatusCondition::Ready) || cond == Some(
            OdooDBStatusCondition::Failed,
        ) ==> spec_db_decision(cond, secret_exists, job_state) == DbDecision::Done,
{
}

// ------------------------------------------------------------------
// The initialization job and its config map.
// ------------------------------------------------------------------

/// The shell command that signals the log agent to shut down once the
/// initialization commands finished.
pub open spec fn spec_shutdown_vector_command() -> Seq<char> {
    "mkdir -p /stackable/log/_vector && touch /stackable/log/_vector/shutdown"@
}

/// Builds the log-agent shutdown command.
pub fn shutdown_vector_command() -> (r: String)
    ensures
        r@ == spec_shutdown_vector_command(),
{
    String::from_str("mkdir -p /stackable/log/_vector && touch /stackable/log/_vector/shutdown")
}

/// The fixed, ordered command sequence of the initialization job:
/// initialize the schema, run migrations, create the admin account from
/// secret-sourced credentials, then signal log-shipping shutdown.
pub open spec fn spec_init_job_commands() -> Seq<Seq<char>> {
    seq![
        "odoo db init"@,
        "odoo db upgrade"@,
        "odoo users create --username \"$ADMIN_USERNAME\" --firstname \"$ADMIN_FIRSTNAME\" --lastname \"$ADMIN_LASTNAME\" --email \"$ADMIN_EMAIL\" --password \"$ADMIN_PASSWORD\" --role \"Admin\""@,
        spec_shutdown_vector_command(),
    ]
}

/// The environment of the initialization container: connection strings and
/// admin credentials from the referenced secret, plus the Python path and
/// logging class.
pub open spec fn spec_init_job_env(secret: Seq<char>) -> Seq<crate::k8s::EnvVarView> {
    seq![
        spec_env_from_secret("AIRFLOW__WEBSERVER__SECRET_KEY"@, secret, "connections.secretKey"@),
        spec_env_from_secret(
            "AIRFLOW__CORE__SQL_ALCHEMY_CONN"@,
            secret,
            "connections.sqlalchemyDatabaseUri"@,
        ),
        spec_env_from_secret(
            "AIRFLOW__CELERY__RESULT_BACKEND"@,
            secret,
            "connections.celeryResultBackend"@,
        ),
        spec_env_from_secret("ADMIN_USERNAME"@, secret, "adminUser.username"@),
        spec_env_from_secret("ADMIN_FIRSTNAME"@, secret, "adminUser.firstname"@),
        spec_env_from_secret("ADMIN_LASTNAME"@, secret, "adminUser.lastname"@),
        spec_env_from_secret("ADMIN_EMAIL"@, secret, "adminUser.email"@),
        spec_env_from_secret("ADMIN_PASSWORD"@, secret, "adminUser.password"@),
        spec_env_literal("PYTHONPATH"@, "/stackable/app/log_config"@),
        spec_env_literal("AIRFLOW__LOGGING__LOGGING_CONFIG_CLASS"@, "log_config.LOGGING_CONFIG"@),
    ]
}

/// Builds the config map of the initialization job, named
/// `{database}-init-db`; its logging entries are filled in by the external
/// resource manager.  Fails exactly when the database object has no name.
pub fn build_config_map(odoo_db: &OdooDB) -> (r: Result<ConfigMap, Error>)
    ensures
        r is Ok <==> odoo_db.metadata.name is Some,
        r is Ok ==> ({
            let cm = r->Ok_0;
            &&& opt_str_view(cm.metadata.name) == Some(
                opt_str_view(odoo_db.metadata.name)->0 + "-init-db"@,
            )
            &&& opt_str_view(cm.metadata.namespace) == opt_str_view(odoo_db.metadata.namespace)
            &&& cm.metadata.owner_referenced
            &&& cm.data@.len() == 0
        }),
        r is Err ==> r->Err_0 == Error::ObjectMissingMetadataForOwnerRef,
{
    let name = match &odoo_db.metadata.name {
        Some(n) => n,
        None => {
            return Err(Error::ObjectMissingMetadataForOwnerRef);
        },
    };
    Ok(
        ConfigMap {
            metadata: ObjectMeta {
                name: Some(name.clone().concat("-init-db")),
                namespace: clone_opt_string(&odoo_db.metadata.namespace),
                labels: Vec::new(),
                owner_referenced: true,
            },
            data: Vec::new(),
        },
    )
}

/// Builds the one-shot initialization job: a single container running the
/// fixed command sequence with bounded resources, never restarted, under
/// the role-scoped service account, plus the log-agent side-car when the
/// resolved logging configuration enables it.  Fails exactly when the
/// database object has no name.
pub fn build_init_job(
    odoo_db: &OdooDB,
    resolved_product_image: &ResolvedProductImage,
    sa_name: &str,
    config: &crate::odoodb::OdooDbConfig,
    config_map_name: &str,
) -> (r: Result<Job, Error>)
    ensures
        r is Ok <==> odoo_db.metadata.name is Some,
        r is Ok ==> ({
            let job = r->Ok_0;
            let n_containers = 1 + (if config.logging.enable_vector_agent {
                1int
            } else {
                0int
            });
            &&& opt_str_view(job.metadata.name) == opt_str_view(odoo_db.metadata.name)
            &&& opt_str_view(job.metadata.namespace) == opt_str_view(odoo_db.metadata.namespace)
            &&& job.metadata.owner_referenced
            &&& opt_str_view(job.template.restart_policy) == Some("Never"@)
            &&& opt_str_view(job.template.service_account_name) == Some(sa_name@)
            &&& job.template.security_context == Some(
                PodSecurityContext { run_as_user: 1000, run_as_group: 0, fs_group: None },
            )
            &&& volumes_view(job.template.volumes@) == seq![
                VolumeView {
                    name: "config"@,
                    source: VolumeSourceView::FromConfigMap(config_map_name@),
                },
                VolumeView {
                    name: "log-config"@,
                    source: VolumeSourceView::FromConfigMap(config_map_name@),
                },
                VolumeView { name: "log"@, source: VolumeSourceView::EmptyDir },
            ]
            &&& job.template.containers@.len() == n_containers
            &&& ({
                let c = job.template.containers@[0];
                &&& c.name@ == "odoo-init-db"@
                &&& opt_str_view(c.image) == Some(resolved_product_image.image@)
                &&& crate::affinity::strings_view(c.command@) == seq!["/bin/bash"@]
                &&& crate::affinity::strings_view(c.args@) == seq![
                    "-c"@,
                    spec_join(spec_init_job_commands(), "; "@),
                ]
                &&& env_vars_view(c.env@) == spec_init_job_env(odoo_db.spec.credentials_secret@)
                &&& mounts_view(c.volume_mounts@) == seq![
                    ("log-config"@, "/stackable/app/log_config"@),
                    ("log"@, "/stackable/log"@),
                ]
                &&& c.resources matches Some(rr) && crate::controller::requirements_view(rr) == (
                    Some("100m"@),
                    Some("400m"@),
                    Some("512Mi"@),
                    Some("512Mi"@),
                )
            })
            &&& (config.logging.enable_vector_agent ==> job.template.containers@[1].name@
                == "vector"@)
        }),
        r is Err ==> r->Err_0 == Error::ObjectMissingMetadataForOwnerRef,
{
    let name = match &odoo_db.metadata.name {
        Some(n) => n,
        None => {
            return Err(Error::ObjectMissingMetadataForOwnerRef);
        },
    };
    let mut commands: Vec<String> = Vec::new();
    commands.push(String::from_str("odoo db init"));
    commands.push(String::from_str("odoo db upgrade"));
    commands.push(
        String::from_str(
            "odoo users create --username \"$ADMIN_USERNAME\" --firstname \"$ADMIN_FIRSTNAME\" --lastname \"$ADMIN_LASTNAME\" --email \"$ADMIN_EMAIL\" --password \"$ADMIN_PASSWORD\" --role \"Admin\"",
        ),
    );
    commands.push(shutdown_vector_command());
    proof {
        assert(crate::affinity::strings_view(commands@) =~= spec_init_job_commands());
    }
    let secret = &odoo_db.spec.credentials_secret;
    let mut env: Vec<EnvVar> = Vec::new();
    env.push(
        env_var_from_secret("AIRFLOW__WEBSERVER__SECRET_KEY", secret.as_str(), "connections.secretKey"),
    );
    env.push(
        env_var_from_secret(
            "AIRFLOW__CORE__SQL_ALCHEMY_CONN",
            secret.as_str(),
            "connections.sqlalchemyDatabaseUri",
        ),
    );
    env.push(
        env_var_from_secret(
            "AIRFLOW__CELERY__RESULT_BACKEND",
            secret.as_str(),
            "connections.celeryResultBackend",
        ),
    );
    env.push(env_var_from_secret("ADMIN_USERNAME", secret.as_str(), "adminUser.username"));
    env.push(env_var_from_secret("ADMIN_FIRSTNAME", secret.as_str(), "adminUser.firstname"));
    env.push(env_var_from_secret("ADMIN_LASTNAME", secret.as_str(), "adminUser.lastname"));
    env.push(env_var_from_secret("ADMIN_EMAIL", secret.as_str(), "adminUser.email"));
    env.push(env_var_from_secret("ADMIN_PASSWORD", secret.as_str(), "adminUser.password"));
    env.push(env_literal("PYTHONPATH", String::from_str("/stackable/app/log_config")));
    env.push(
        env_literal(
            "AIRFLOW__LOGGING__LOGGING_CONFIG_CLASS",
            String::from_str("log_config.LOGGING_CONFIG"),
        ),
    );
    proof {
        assert(env_vars_view(env@) =~= spec_init_job_env(odoo_db.spec.credentials_secret@));
    }
    let mut command: Vec<String> = Vec::new();
    command.push(String::from_str("/bin/bash"));
    let mut args: Vec<String> = Vec::new();
    args.push(String::from_str("-c"));
    args.push(crate::strutil::join_strings(&commands, "; "));
    let mut volume_mounts: Vec<crate::k8s::VolumeMount> = Vec::new();
    volume_mounts.push(volume_mount("log-config", crate::crd::LOG_CONFIG_DIR));
    volume_mounts.push(volume_mount("log", crate::crd::STACKABLE_LOG_DIR));
    let init_container = ContainerSpec {
        name: Container::OdooInitDb.as_str().to_owned(),
        image: Some(resolved_product_image.image.clone()),
        command,
        args,
        env,
        volume_mounts,
        container_ports: Vec::new(),
        resources: Some(
            ResourceRequirements {
                cpu_request: Some(String::from_str("100m")),
                cpu_limit: Some(String::from_str("400m")),
                memory_request: Some(String::from_str("512Mi")),
                memory_limit: Some(String::from_str("512Mi")),
            },
        ),
        readiness_probe: None,
        liveness_probe: None,
    };
    proof {
        assert(crate::affinity::strings_view(init_container.command@) =~= seq!["/bin/bash"@]);
        assert(mounts_view(init_container.volume_mounts@) =~= seq![
            ("log-config"@, "/stackable/app/log_config"@),
            ("log"@, "/stackable/log"@),
        ]);
    }
    let mut containers: Vec<ContainerSpec> = Vec::new();
    containers.push(init_container);
    if config.logging.enable_vector_agent {
        containers.push(
            ContainerSpec {
                name: Container::Vector.as_str().to_owned(),
                image: Some(resolved_product_image.image.clone()),
                command: Vec::new(),
                args: Vec::new(),
                env: Vec::new(),
                volume_mounts: Vec::new(),
                container_ports: Vec::new(),
                resources: Some(
                    ResourceRequirements {
                        cpu_request: Some(String::from_str("250m")),
                        cpu_limit: Some(String::from_str("500m")),
                        memory_request: Some(String::from_str("128Mi")),
                        memory_limit: Some(String::from_str("128Mi")),
                    },
                ),
                readiness_probe: None,
                liveness_probe: None,
            },
        );
    }
    let mut volumes: Vec<Volume> = Vec::new();
    volumes.push(
        Volume {
            name: String::from_str("config"),
            source: VolumeSource::FromConfigMap { config_map_name: config_map_name.to_owned() },
        },
    );
    volumes.push(
        Volume {
            name: String::from_str("log-config"),
            source: VolumeSource::FromConfigMap { config_map_name: config_map_name.to_owned() },
        },
    );
    volumes.push(Volume { name: String::from_str("log"), source: VolumeSource::EmptyDir });
    proof {
        assert(volumes_view(volumes@) =~= seq![
            VolumeView { name: "config"@, source: VolumeSourceView::FromConfigMap(config_map_name@) },
            VolumeView {
                name: "log-config"@,
                source: VolumeSourceView::FromConfigMap(config_map_name@),
            },
            VolumeView { name: "log"@, source: VolumeSourceView::EmptyDir },
        ]);
    }
    Ok(
        Job {
            metadata: ObjectMeta {
                name: Some(name.clone()),
                namespace: clone_opt_string(&odoo_db.metadata.namespace),
                labels: Vec::new(),
                owner_referenced: true,
            },
            template: PodTemplate {
                labels: Vec::new(),
                containers,
                volumes,
                service_account_name: Some(sa_name.to_owned()),
                security_context: Some(
                    PodSecurityContext { run_as_user: 1000, run_as_group: 0, fs_group: None },
                ),
                restart_policy: Some(String::from_str("Never")),
                affinity: None,
            },
        },
    )
}

// ------------------------------------------------------------------
// The reconcile decision.
// ------------------------------------------------------------------

/// What one reconcile pass of the database controller does.
#[derive(Clone, Debug, PartialEq, Eq)]
pub enum DbStep {
    /// Persist this status on the database resource.
    SetStatus(OdooDBStatus),
    /// Apply the config map and the initialization job, then persist the
    /// advanced status.
    ApplyInitialization { config_map: ConfigMap, job: Job, new_status: OdooDBStatus },
    /// Nothing to do.
    NoOp,
}

/// The outcome of a database reconcile pass.
#[derive(Clone, Debug, PartialEq, Eq)]
pub struct DbReconcileOutcome {
    pub step: DbStep,
    pub action: Action,
}

/// The persisted condition of a database resource, if any.
pub open spec fn spec_db_cond(db: OdooDB) -> Option<OdooDBStatusCondition> {
    match db.status {
        Some(s) => Some(s.condition),
        None => None,
    }
}

/// One reconcile pass of the database controller, driving the bootstrap
/// state machine.  The caller observes whether the credentials secret
/// exists and, while initializing, the job's reported state, and reads the
/// clock once; this function decides the step.  Success is owed whenever
/// the object has a namespace, except that a missing secret while
/// `Pending` and a missing job while `Initializing` are errors (the first
/// retryable by policy); starting the initialization also needs the object
/// name for the owner references.
pub fn reconcile_odoo_db(
    odoo_db: &OdooDB,
    secret_exists: bool,
    job_state: &Option<JobState>,
    now: String,
    sa_name: &str,
) -> (r: Result<DbReconcileOutcome, Error>)
    ensures
        r is Ok <==> (odoo_db.metadata.namespace is Some && (match spec_db_decision(
            spec_db_cond(*odoo_db),
            secret_exists,
            *job_state,
        ) {
            DbDecision::RetryLater => false,
            DbDecision::JobMissing => false,
            DbDecision::StartInitialization => odoo_db.metadata.name is Some,
            _ => true,
        })),
        r is Ok ==> ({
            let outcome = r->Ok_0;
            &&& outcome.action == Action::AwaitChange
            &&& (match spec_db_decision(spec_db_cond(*odoo_db), secret_exists, *job_state) {
                DbDecision::StampPending => outcome.step matches DbStep::SetStatus(s)
                    && s.condition == OdooDBStatusCondition::Pending && opt_str_view(s.started_at)
                    == Some(now@),
                DbDecision::StartInitialization => outcome.step
                    matches DbStep::ApplyInitialization { config_map, job, new_status }
                    && new_status.condition == OdooDBStatusCondition::Initializing && opt_str_view(
                    new_status.started_at,
                ) == opt_str_view(odoo_db.status->0.started_at) && opt_str_view(
                    config_map.metadata.name,
                ) == Some(opt_str_view(odoo_db.metadata.name)->0 + "-init-db"@) && opt_str_view(
                    job.metadata.name,
                ) == opt_str_view(odoo_db.metadata.name) && job.metadata.owner_referenced
                    && opt_str_view(job.template.restart_policy) == Some("Never"@)
                    && opt_str_view(job.template.service_account_name) == Some(sa_name@)
                    && job.template.containers@.len() >= 1 && job.template.containers@[0].name@
                    == "odoo-init-db"@ && crate::affinity::strings_view(
                    job.template.containers@[0].args@,
                ) == seq!["-c"@, spec_join(spec_init_job_commands(), "; "@)] && env_vars_view(
                    job.template.containers@[0].env@,
                ) == spec_init_job_env(odoo_db.spec.credentials_secret@),
                DbDecision::MarkReady => outcome.step matches DbStep::SetStatus(s) && s.condition
                    == OdooDBStatusCondition::Ready && opt_str_view(s.started_at) == opt_str_view(
                    odoo_db.status->0.started_at,
                ),
                DbDecision::MarkFailed => outcome.step matches DbStep::SetStatus(s) && s.condition
                    == OdooDBStatusCondition::Failed && opt_str_view(s.started_at) == opt_str_view(
                    odoo_db.status->0.started_at,
                ),
                DbDecision::KeepWaiting => outcome.step == DbStep::NoOp,
                DbDecision::Done => outcome.step == DbStep::NoOp,
                _ => false,
            })
        }),
{
    if odoo_db.metadata.namespace.is_none() {
        return Err(Error::ObjectHasNoNamespace);
    }
    let cond: Option<OdooDBStatusCondition> = match &odoo_db.status {
        Some(s) => Some(s.condition),
        None => None,
    };
    match db_decision(&cond, secret_exists, job_state) {
        DbDecision::StampPending => Ok(
            DbReconcileOutcome {
                step: DbStep::SetStatus(OdooDBStatus::new(now)),
                action: Action::AwaitChange,
            },
        ),
        DbDecision::RetryLater => Err(
            Error::SecretCheck { secret: odoo_db.spec.credentials_secret.clone() },
        ),
        DbDecision::StartInitialization => {
            let status = match &odoo_db.status {
                Some(s) => s,
                None => unreached(),
            };
            let config_map = build_config_map(odoo_db)?;
            let config = match odoo_db.merged_config() {
                Ok(c) => c,
                Err(_) => unreached(),
            };
            let config_map_name = match &config_map.metadata.name {
                Some(n) => n.clone(),
                None => String::new(),
            };
            let resolved_product_image = odoo_db.spec.image.resolve(
                crate::controller::DOCKER_IMAGE_BASE_NAME,
            );
            let job = build_init_job(
                odoo_db,
                &resolved_product_image,
                sa_name,
                &config,
                config_map_name.as_str(),
            )?;
            Ok(
                DbReconcileOutcome {
                    step: DbStep::ApplyInitialization {
                        config_map,
                        job,
                        new_status: status.initializing(),
                    },
                    action: Action::AwaitChange,
                },
            )
        },
        DbDecision::MarkReady => {
            let status = match &odoo_db.status {
                Some(s) => s,
                None => unreached(),
            };
            Ok(
                DbReconcileOutcome {
                    step: DbStep::SetStatus(status.ready()),
                    action: Action::AwaitChange,
                },
            )
        },
        DbDecision::MarkFailed => {
            let status = match &odoo_db.status {
                Some(s) => s,
                None => unreached(),
            };
            Ok(
                DbReconcileOutcome {
                    step: DbStep::SetStatus(status.failed()),
                    action: Action::AwaitChange,
                },
            )
        },
        DbDecision::KeepWaiting => Ok(
            DbReconcileOutcome { step: DbStep::NoOp, action: Action::AwaitChange },
        ),
        DbDecision::JobMissing => Err(
            Error::GetInitializationJob {
                init_job: match &odoo_db.metadata.name {
                    Some(n) => n.clone(),
                    None => String::new(),
                },
            },
        ),
        DbDecision::Done => Ok(DbReconcileOutcome { step: DbStep::NoOp, action: Action::AwaitChange }),
    }
}

} // verus!
