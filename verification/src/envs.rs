//! The deterministic environment-variable sets of the workload containers:
//! the per-role-group property map, the secret-mapped connection variables,
//! the git-sync credentials, and the static logging/metrics variables.
use crate::crd::OdooCluster;
use crate::k8s::{
    env_literal, env_var_from_secret, env_var_view, env_vars_view, spec_env_from_secret,
    spec_env_literal, EnvVar, EnvVarView,
};
use crate::string_map::{spec_find, spec_insert, StringMap};
use crate::strutil::opt_str_view;
use vstd::prelude::*;
use vstd::string::*;

verus! {

/// The property key the credentials secret is published under.
pub const CREDENTIALS_SECRET_PROPERTY: &'static str = "credentialsSecret";

/// The property key the git credentials secret is published under.
pub const GIT_CREDENTIALS_SECRET_PROPERTY: &'static str = "gitCredentialsSecret";

/// The environment property map of a role-group: the credentials secret,
/// and the git credentials secret when the configured git-sync source
/// names one.
pub open spec fn spec_compute_env(c: OdooCluster) -> Seq<(Seq<char>, Seq<char>)> {
    let base = spec_insert(
        Seq::empty(),
        "credentialsSecret"@,
        c.spec.cluster_config.credentials_secret@,
    );
    if c.spec.cluster_config.dags_git_sync@.len() > 0 {
        match opt_str_view(c.spec.cluster_config.dags_git_sync@[0].credentials_secret) {
            Some(s) => spec_insert(base, "gitCredentialsSecret"@, s),
            None => base,
        }
    } else {
        base
    }
}

impl crate::config::OdooConfigFragment {
    /// Computes the environment property map of a role-group.
    pub fn compute_env(&self, cluster: &OdooCluster) -> (r: StringMap)
        ensures
            r.entries_view() == spec_compute_env(*cluster),
            r.wf(),
    {
        let mut env = StringMap::new();
        env.insert(
            CREDENTIALS_SECRET_PROPERTY.to_owned(),
            cluster.spec.cluster_config.credentials_secret.clone(),
        );
        if let Some(git_sync) = cluster.git_sync() {
            if let Some(credentials_secret) = &git_sync.credentials_secret {
                env.insert(GIT_CREDENTIALS_SECRET_PROPERTY.to_owned(), credentials_secret.clone());
            }
        }
        env
    }

    /// Computes the command-line property map of a role-group: none.
    pub fn compute_cli(&self, _cluster: &OdooCluster) -> (r: StringMap)
        ensures
            r.entries_view() == Seq::<(Seq<char>, Seq<char>)>::empty(),
            r.wf(),
    {
        StringMap::new()
    }

    /// Computes the file property map of a role-group: none.
    pub fn compute_files(&self, _cluster: &OdooCluster) -> (r: StringMap)
        ensures
            r.entries_view() == Seq::<(Seq<char>, Seq<char>)>::empty(),
            r.wf(),
    {
        StringMap::new()
    }
}

/// The environment variables mapped from cluster settings: four
/// connection-string variables drawn from the credentials secret, the DAG
/// folder under the git checkout when a git folder is configured, the
/// example-loading flag, the config-exposure flag when enabled, and the
/// executor variable.
pub open spec fn spec_mapped_envs(
    c: OdooCluster,
    env_entries: Seq<(Seq<char>, Seq<char>)>,
) -> Seq<EnvVarView> {
    (match spec_find(env_entries, "credentialsSecret"@) {
        Some(secret) => seq![
            spec_env_from_secret("AIRFLOW__WEBSERVER__SECRET_KEY"@, secret, "connections.secretKey"@),
            spec_env_from_secret(
                "AIRFLOW__CORE__SQL_ALCHEMY_CONN"@,
                secret,
                "connections.sqlalchemyDatabaseUri"@,
            ),
            spec_env_from_secret(
                "AIRFLOW__CELERY__RESULT_BACKEND"@,
                secret,
                "connections.celeryResultBackend"@,
            ),
            spec_env_from_secret("AIRFLOW__CELERY__BROKER_URL"@, secret, "connections.celeryBrokerUrl"@),
        ],
        None => Seq::empty(),
    }) + (if c.spec.cluster_config.dags_git_sync@.len() > 0 {
        match opt_str_view(c.spec.cluster_config.dags_git_sync@[0].git_folder) {
            Some(folder) => seq![
                spec_env_literal(
                    "AIRFLOW__CORE__DAGS_FOLDER"@,
                    "/stackable/app/git/current/"@ + folder,
                ),
            ],
            None => Seq::empty(),
        }
    } else {
        Seq::empty()
    }) + seq![
        spec_env_literal(
            "AIRFLOW__CORE__LOAD_EXAMPLES"@,
            if c.spec.cluster_config.load_examples == Some(true) {
                "True"@
            } else {
                "False"@
            },
        ),
    ] + (if c.spec.cluster_config.expose_config == Some(true) {
        seq![spec_env_literal("AIRFLOW__WEBSERVER__EXPOSE_CONFIG"@, "True"@)]
    } else {
        Seq::empty()
    }) + seq![
        EnvVarView {
            name: "AIRFLOW__CORE__EXECUTOR"@,
            value: opt_str_view(c.spec.cluster_config.executor),
            value_from_secret: None,
        },
    ]
}

/// Builds the mapped environment variables of the main container.
pub fn build_mapped_envs(odoo: &OdooCluster, env_config: &StringMap) -> (r: Vec<EnvVar>)
    ensures
        env_vars_view(r@) == spec_mapped_envs(*odoo, env_config.entries_view()),
{
    let mut env: Vec<EnvVar> = Vec::new();
    if let Some(secret) = env_config.get(CREDENTIALS_SECRET_PROPERTY) {
        env.push(
            env_var_from_secret(
                "AIRFLOW__WEBSERVER__SECRET_KEY",
                secret.as_str(),
                "connections.secretKey",
            ),
        );
        env.push(
            env_var_from_secret(
                "AIRFLOW__CORE__SQL_ALCHEMY_CONN",
                secret.as_str(),
                "connections.sqlalchemyDatabaseUri",
            ),
        );
        env.push(
            env_var_from_secret(
                "AIRFLOW__CELERY__RESULT_BACKEND",
                secret.as_str(),
                "connections.celeryResultBackend",
            ),
        );
        env.push(
            env_var_from_secret(
                "AIRFLOW__CELERY__BROKER_URL",
                secret.as_str(),
                "connections.celeryBrokerUrl",
            ),
        );
    }
    if let Some(git_sync) = odoo.git_sync() {
        if let Some(folder) = &git_sync.git_folder {
            env.push(
                env_literal(
                    "AIRFLOW__CORE__DAGS_FOLDER",
                    String::from_str("/stackable/app/git/current/").concat(folder.as_str()),
                ),
            );
        }
    }
    let load_examples = match odoo.spec.cluster_config.load_examples {
        Some(true) => true,
        _ => false,
    };
    if load_examples {
        env.push(env_literal("AIRFLOW__CORE__LOAD_EXAMPLES", String::from_str("True")));
    } else {
        env.push(env_literal("AIRFLOW__CORE__LOAD_EXAMPLES", String::from_str("False")));
    }
    let expose_config = match odoo.spec.cluster_config.expose_config {
        Some(true) => true,
        _ => false,
    };
    if expose_config {
        env.push(env_literal("AIRFLOW__WEBSERVER__EXPOSE_CONFIG", String::from_str("True")));
    }
    env.push(
        EnvVar {
            name: String::from_str("AIRFLOW__CORE__EXECUTOR"),
            value: crate::strutil::clone_opt_string(&odoo.spec.cluster_config.executor),
            value_from_secret: None,
        },
    );
    proof {
        assert(env_vars_view(env@) =~= spec_mapped_envs(*odoo, env_config.entries_view()));
    }
    env
}

/// The git-sync credential variables: user and password from the git
/// credentials secret, when one is configured.
pub open spec fn spec_gitsync_envs(env_entries: Seq<(Seq<char>, Seq<char>)>) -> Seq<EnvVarView> {
    match spec_find(env_entries, "gitCredentialsSecret"@) {
        Some(secret) => seq![
            spec_env_from_secret("GIT_SYNC_USERNAME"@, secret, "user"@),
            spec_env_from_secret("GIT_SYNC_PASSWORD"@, secret, "password"@),
        ],
        None => Seq::empty(),
    }
}

/// Builds the environment of the git-sync side-car.
pub fn build_gitsync_envs(env_config: &StringMap) -> (r: Vec<EnvVar>)
    ensures
        env_vars_view(r@) == spec_gitsync_envs(env_config.entries_view()),
{
    let mut env: Vec<EnvVar> = Vec::new();
    if let Some(git_secret) = env_config.get(GIT_CREDENTIALS_SECRET_PROPERTY) {
        env.push(env_var_from_secret("GIT_SYNC_USERNAME", git_secret.as_str(), "user"));
        env.push(env_var_from_secret("GIT_SYNC_PASSWORD", git_secret.as_str(), "password"));
    }
    proof {
        assert(env_vars_view(env@) =~= spec_gitsync_envs(env_config.entries_view()));
    }
    env
}

/// The static environment variables of every main container: Python path
/// and logging class, metrics reporting, and the API authentication
/// backend.
pub open spec fn spec_static_envs() -> Seq<EnvVarView> {
    seq![
        spec_env_literal("PYTHONPATH"@, "/stackable/app/log_config"@),
        spec_env_literal("AIRFLOW__LOGGING__LOGGING_CONFIG_CLASS"@, "log_config.LOGGING_CONFIG"@),
        spec_env_literal("AIRFLOW__METRICS__STATSD_ON"@, "True"@),
        spec_env_literal("AIRFLOW__METRICS__STATSD_HOST"@, "0.0.0.0"@),
        spec_env_literal("AIRFLOW__METRICS__STATSD_PORT"@, "9125"@),
        spec_env_literal("AIRFLOW__API__AUTH_BACKEND"@, "odoo.api.auth.backend.basic_auth"@),
    ]
}

/// Builds the static environment variables.
pub fn build_static_envs() -> (r: Vec<EnvVar>)
    ensures
        env_vars_view(r@) == spec_static_envs(),
{
    let mut env: Vec<EnvVar> = Vec::new();
    env.push(env_literal("PYTHONPATH", String::from_str("/stackable/app/log_config")));
    env.push(
        env_literal(
            "AIRFLOW__LOGGING__LOGGING_CONFIG_CLASS",
            String::from_str("log_config.LOGGING_CONFIG"),
        ),
    );
    env.push(env_literal("AIRFLOW__METRICS__STATSD_ON", String::from_str("True")));
    env.push(env_literal("AIRFLOW__METRICS__STATSD_HOST", String::from_str("0.0.0.0")));
    env.push(env_literal("AIRFLOW__METRICS__STATSD_PORT", String::from_str("9125")));
    env.push(
        env_literal("AIRFLOW__API__AUTH_BACKEND", String::from_str("odoo.api.auth.backend.basic_auth")),
    );
    proof {
        assert(env_vars_view(env@) =~= spec_static_envs());
    }
    env
}

} // verus!
verus! {

/// A property map turned into literal environment variables, entry by
/// entry.
pub open spec fn spec_env_entries_vars(s: Seq<(Seq<char>, Seq<char>)>) -> Seq<EnvVarView> {
    s.map_values(|p: (Seq<char>, Seq<char>)| spec_env_literal(p.0, p.1))
}

/// Turns a property map into literal environment variables.
pub fn envs_from_entries(config: &StringMap) -> (r: Vec<EnvVar>)
    ensures
        env_vars_view(r@) == spec_env_entries_vars(config.entries_view()),
{
    let mut r: Vec<EnvVar> = Vec::new();
    let mut i: usize = 0;
    while i < config.entries.len()
        invariant
            i <= config.entries@.len(),
            r@.len() == i,
            forall|j: int| 0 <= j < i ==> env_var_view(r@[j]) == spec_env_literal(
                config.entries@[j].0@,
                config.entries@[j].1@,
            ),
        decreases config.entries@.len() - i,
    {
        let entry = &config.entries[i];
        r.push(env_literal(entry.0.as_str(), entry.1.clone()));
        i += 1;
    }
    proof {
        assert(env_vars_view(r@) =~= spec_env_entries_vars(config.entries_view()));
    }
    r
}

} // verus!
