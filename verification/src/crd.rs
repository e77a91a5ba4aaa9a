//! The cluster custom-resource model: global cluster configuration, roles
//! and role-groups, git-sync sources, and the per-role-group configuration
//! resolution.
use crate::affinity::{label_selector_view, LabelSelector, LabelSelectorView};
use crate::config::{
    clone_config_fragment, config_frag_view, config_view, default_config, empty_fragment, resolve,
    spec_default_config, spec_empty_fragment, spec_resolved_fragment, spec_validate_config,
    OdooConfig, OdooConfigFragment, OdooConfigFragmentView, ValidationError,
};
use crate::k8s::{ClusterCondition, Volume, VolumeMount};
use crate::odoodb::OdooDbConfigFragment;
use crate::role::{spec_role_name, OdooRole};
use crate::string_map::StringMap;
use crate::strutil::{dec_rep, dec_u64, eq_ignore_ascii_case, lower_seq, opt_str_view, str_eq};
use vstd::prelude::*;
use vstd::string::*;

verus! {

/// User id the application containers run as.
pub const AIRFLOW_UID: i64 = 1000;

/// Mount point of the rendered configuration.
pub const CONFIG_PATH: &'static str = "/stackable/app/config";

/// Directory the containers write their logs to.
pub const STACKABLE_LOG_DIR: &'static str = "/stackable/log";

/// Mount point of the logging configuration.
pub const LOG_CONFIG_DIR: &'static str = "/stackable/app/log_config";

/// Home directory of the application.
pub const AIRFLOW_HOME: &'static str = "/stackable/odoo";

/// File name of the rendered webserver configuration.
pub const AIRFLOW_CONFIG_FILENAME: &'static str = "webserver_config.py";

/// Mount point of the git-sync checkout inside the main container.
pub const GIT_SYNC_DIR: &'static str = "/stackable/app/git";

/// Name of the shared volume holding the git checkout.
pub const GIT_CONTENT: &'static str = "content-from-git";

/// Root directory of the git-sync side-car's working tree.
pub const GIT_ROOT: &'static str = "/tmp/git";

/// Name of the symlink git-sync keeps pointing at the current revision.
pub const GIT_LINK: &'static str = "current";

/// Base name of the git-sync side-car container.
pub const GIT_SYNC_NAME: &'static str = "gitsync";

/// Errors of configuration resolution.
#[derive(Clone, Debug, PartialEq, Eq)]
pub enum Error {
    /// The addressed role is not declared in the cluster spec.
    UnknownOdooRole { role: String, roles: Vec<String> },
    /// The merged configuration left a required field unset.
    FragmentValidationFailure { source: ValidationError },
}

/// The service types the operator can expose a role under, chosen by
/// listener-class name.
#[derive(Clone, Copy, Debug, PartialEq, Eq, Structural)]
pub enum CurrentlySupportedListenerClasses {
    ClusterInternal,
    ExternalUnstable,
    ExternalStable,
}

/// The Kubernetes service type of a listener class.
pub open spec fn spec_k8s_service_type(c: CurrentlySupportedListenerClasses) -> Seq<char> {
    match c {
        CurrentlySupportedListenerClasses::ClusterInternal => "ClusterIP"@,
        CurrentlySupportedListenerClasses::ExternalUnstable => "NodePort"@,
        CurrentlySupportedListenerClasses::ExternalStable => "LoadBalancer"@,
    }
}

impl CurrentlySupportedListenerClasses {
    /// Maps the listener class onto the service type of the role service.
    pub fn k8s_service_type(&self) -> (r: String)
        ensures
            r@ == spec_k8s_service_type(*self),
    {
        match self {
            CurrentlySupportedListenerClasses::ClusterInternal => String::from_str("ClusterIP"),
            CurrentlySupportedListenerClasses::ExternalUnstable => String::from_str("NodePort"),
            CurrentlySupportedListenerClasses::ExternalStable => String::from_str("LoadBalancer"),
        }
    }
}

// ------------------------------------------------------------------
// Git-sync.
// ------------------------------------------------------------------

/// A git repository to synchronize the DAG folder from.
#[derive(Clone, Debug, PartialEq, Eq)]
pub struct GitSync {
    pub repo: String,
    pub branch: Option<String>,
    pub git_folder: Option<String>,
    pub depth: Option<u8>,
    pub wait: Option<u16>,
    pub credentials_secret: Option<String>,
    pub git_sync_conf: StringMap,
}

/// Character-level view of a [`GitSync`].
pub struct GitSyncView {
    pub repo: Seq<char>,
    pub branch: Option<Seq<char>>,
    pub git_folder: Option<Seq<char>>,
    pub depth: Option<u8>,
    pub wait: Option<u16>,
    pub credentials_secret: Option<Seq<char>>,
    pub conf: Seq<(Seq<char>, Seq<char>)>,
}

pub open spec fn git_sync_view(g: GitSync) -> GitSyncView {
    GitSyncView {
        repo: g.repo@,
        branch: opt_str_view(g.branch),
        git_folder: opt_str_view(g.git_folder),
        depth: g.depth,
        wait: g.wait,
        credentials_secret: opt_str_view(g.credentials_secret),
        conf: g.git_sync_conf.entries_view(),
    }
}

/// Configuration keys whose values are internal details with constant
/// values; user-supplied entries under these keys are ignored.
pub open spec fn spec_ignored_conf_key(k: Seq<char>) -> bool {
    ||| lower_seq(k) == "--dest"@
    ||| lower_seq(k) == "--root"@
    ||| lower_seq(k) == "--git-config"@
}

/// The extra arguments from the user's git-sync configuration map, in entry
/// order, one `key=value` argument each, with internal keys dropped.
pub open spec fn spec_conf_args(s: Seq<(Seq<char>, Seq<char>)>) -> Seq<Seq<char>>
    decreases s.len(),
{
    if s.len() == 0 {
        Seq::empty()
    } else {
        let rest = spec_conf_args(s.drop_last());
        if spec_ignored_conf_key(s.last().0) {
            rest
        } else {
            rest.push(s.last().0 + "="@ + s.last().1)
        }
    }
}

/// The full argument list of the git-sync side-car.
pub open spec fn spec_gitsync_args(g: GitSyncView) -> Seq<Seq<char>> {
    seq![
        "/stackable/git-sync"@,
        "--repo="@ + g.repo,
        "--branch="@ + (match g.branch {
            Some(b) => b,
            None => "main"@,
        }),
        "--depth="@ + dec_rep((match g.depth {
            Some(d) => d,
            None => 1u8,
        }) as nat),
        "--wait="@ + dec_rep((match g.wait {
            Some(w) => w,
            None => 20u16,
        }) as nat),
        "--dest=current"@,
        "--root=/tmp/git"@,
        "--git-config=safe.directory:/tmp/git"@,
    ] + spec_conf_args(g.conf)
}

impl GitSync {
    /// The argument list of the git-sync side-car: the fixed arguments
    /// (repository, branch, depth, wait, destination, root and a safe-
    /// directory git config), then one `key=value` argument per entry of
    /// the user configuration map, except that entries overriding the
    /// constant-valued internal keys are dropped.
    pub fn get_args(&self) -> (r: Vec<String>)
        ensures
            crate::affinity::strings_view(r@) == spec_gitsync_args(git_sync_view(*self)),
    {
        let mut args: Vec<String> = Vec::new();
        args.push(String::from_str("/stackable/git-sync"));
        args.push(String::from_str("--repo=").concat(self.repo.as_str()));
        let branch = match &self.branch {
            Some(b) => b.clone(),
            None => String::from_str("main"),
        };
        args.push(String::from_str("--branch=").concat(branch.as_str()));
        let depth: u8 = match self.depth {
            Some(d) => d,
            None => 1,
        };
        args.push(String::from_str("--depth=").concat(dec_u64(depth as u64).as_str()));
        let wait: u16 = match self.wait {
            Some(w) => w,
            None => 20,
        };
        args.push(String::from_str("--wait=").concat(dec_u64(wait as u64).as_str()));
        args.push(String::from_str("--dest=current"));
        args.push(String::from_str("--root=/tmp/git"));
        args.push(String::from_str("--git-config=safe.directory:/tmp/git"));
        let ghost fixed = crate::affinity::strings_view(args@);
        proof {
            assert(fixed =~= spec_gitsync_args(git_sync_view(*self)).subrange(0, 8));
        }
        let ghost conf = self.git_sync_conf.entries_view();
        let entries = &self.git_sync_conf.entries;
        let mut i: usize = 0;
        while i < entries.len()
            invariant
                i <= conf.len(),
                conf == crate::affinity::pairs_view(entries@),
                crate::affinity::strings_view(args@) =~= fixed + spec_conf_args(
                    conf.subrange(0, i as int),
                ),
            decreases conf.len() - i,
        {
            let ghost prefix = conf.subrange(0, i as int);
            let ghost prefix1 = conf.subrange(0, i + 1);
            let ghost before = crate::affinity::strings_view(args@);
            let key = &entries[i].0;
            let value = &entries[i].1;
            let ignored = eq_ignore_ascii_case(key.as_str(), "--dest") || eq_ignore_ascii_case(
                key.as_str(),
                "--root",
            ) || eq_ignore_ascii_case(key.as_str(), "--git-config");
            proof {
                reveal_strlit("--dest");
                reveal_strlit("--root");
                reveal_strlit("--git-config");
                assert(lower_seq("--dest"@) =~= "--dest"@);
                assert(lower_seq("--root"@) =~= "--root"@);
                assert(lower_seq("--git-config"@) =~= "--git-config"@);
                assert(ignored == spec_ignored_conf_key(conf[i as int].0));
                assert(prefix1.drop_last() =~= prefix);
                assert(prefix1.last() == conf[i as int]);
            }
            if !ignored {
                args.push(key.clone().concat("=").concat(value.as_str()));
                proof {
                    assert(crate::affinity::strings_view(args@) =~= before.push(
                        conf[i as int].0 + "="@ + conf[i as int].1,
                    ));
                }
            }
            proof {
                assert(crate::affinity::strings_view(args@) =~= fixed + spec_conf_args(prefix1));
            }
            i += 1;
        }
        proof {
            assert(conf.subrange(0, conf.len() as int) =~= conf);
        }
        args
    }
}

// ------------------------------------------------------------------
// Authentication configuration.
// ------------------------------------------------------------------

/// When LDAP roles are re-synchronized for a user.
#[derive(Clone, Copy, Debug, PartialEq, Eq, Structural)]
pub enum LdapRolesSyncMoment {
    Registration,
    Login,
}

/// User-facing authentication settings of the cluster.
#[derive(Clone, Debug, PartialEq, Eq)]
pub struct OdooClusterAuthenticationConfig {
    /// Name of the authentication class used to authenticate users; only
    /// LDAP is supported.  Unset means database authentication.
    pub authentication_class: Option<String>,
    /// Allow users who are not already in the user database.
    pub user_registration: bool,
    /// Role given to users in addition to any mapped roles.
    pub user_registration_role: String,
    /// Whether roles are replaced on each login or only on registration.
    pub sync_roles_at: LdapRolesSyncMoment,
}

/// Default for allowing self-registration.
pub fn default_user_registration() -> (r: bool)
    ensures
        r == true,
{
    true
}

/// Default role of self-registered users.
pub fn default_user_registration_role() -> (r: String)
    ensures
        r@ == "Public"@,
{
    String::from_str("Public")
}

/// Default moment of role synchronization: at registration.
pub fn default_sync_roles_at() -> (r: LdapRolesSyncMoment)
    ensures
        r == LdapRolesSyncMoment::Registration,
{
    LdapRolesSyncMoment::Registration
}

/// Credentials stored in the referenced secret.
#[derive(Clone, Debug, PartialEq, Eq)]
pub struct OdooCredentials {
    pub admin_user: AdminUserCredentials,
    pub connections: Connections,
}

/// The admin account created by the database-initialization job.
#[derive(Clone, Debug, PartialEq, Eq)]
pub struct AdminUserCredentials {
    pub username: String,
    pub firstname: String,
    pub lastname: String,
    pub email: String,
    pub password: String,
}

/// Connection strings of the cluster.
#[derive(Clone, Debug, PartialEq, Eq)]
pub struct Connections {
    pub secret_key: String,
    pub sqlalchemy_database_uri: String,
}

// ------------------------------------------------------------------
// Cluster spec.
// ------------------------------------------------------------------

/// The product image to deploy.
#[derive(Clone, Debug, PartialEq, Eq)]
pub struct ProductImage {
    pub product_version: String,
    pub stackable_version: Option<String>,
}

/// A product image resolved against a base name.
#[derive(Clone, Debug, PartialEq, Eq)]
pub struct ResolvedProductImage {
    pub product_version: String,
    pub app_version_label: String,
    pub image: String,
}

/// The version label of an image: the product version, with the packaging
/// version appended when one is given.
pub open spec fn spec_app_version_label(img: ProductImage) -> Seq<char> {
    match opt_str_view(img.stackable_version) {
        Some(sv) => img.product_version@ + "-"@ + sv,
        None => img.product_version@,
    }
}

impl ProductImage {
    /// Resolves the image against a base name.
    pub fn resolve(&self, image_base_name: &str) -> (r: ResolvedProductImage)
        ensures
            r.product_version@ == self.product_version@,
            r.app_version_label@ == spec_app_version_label(*self),
            r.image@ == image_base_name@ + ":"@ + spec_app_version_label(*self),
    {
        let app_version_label = match &self.stackable_version {
            Some(sv) => self.product_version.clone().concat("-").concat(sv.as_str()),
            None => self.product_version.clone(),
        };
        let image = image_base_name.to_owned().concat(":").concat(app_version_label.as_str());
        ResolvedProductImage {
            product_version: self.product_version.clone(),
            app_version_label,
            image,
        }
    }
}

/// Cluster-wide operation switches.
#[derive(Clone, Copy, Debug, PartialEq, Eq, Structural)]
pub struct ClusterOperation {
    pub reconciliation_paused: bool,
    pub stopped: bool,
}

/// Global cluster configuration applying to all roles and role-groups.
#[derive(Clone, Debug, PartialEq, Eq)]
pub struct OdooClusterConfig {
    pub authentication_config: Option<OdooClusterAuthenticationConfig>,
    pub credentials_secret: String,
    pub dags_git_sync: Vec<GitSync>,
    pub database_initialization: Option<OdooDbConfigFragment>,
    pub executor: Option<String>,
    pub expose_config: Option<bool>,
    pub load_examples: Option<bool>,
    pub listener_class: CurrentlySupportedListenerClasses,
    pub vector_aggregator_config_map_name: Option<String>,
    pub volumes: Option<Vec<Volume>>,
    pub volume_mounts: Option<Vec<VolumeMount>>,
}

/// The common configuration layer of a role or role-group.
#[derive(Clone, Debug, PartialEq, Eq)]
pub struct CommonConfiguration {
    pub config: OdooConfigFragment,
}

/// A named, independently-sized subset of a role with its own override
/// layer.
#[derive(Clone, Debug, PartialEq, Eq)]
pub struct RoleGroup {
    pub config: CommonConfiguration,
    pub replicas: Option<u16>,
    pub selector: Option<LabelSelector>,
}

/// A deployment role: a default override layer plus named role-groups with
/// unique names.
#[derive(Clone, Debug, PartialEq, Eq)]
pub struct Role {
    pub config: CommonConfiguration,
    pub role_groups: Vec<(String, RoleGroup)>,
}

/// Desired state of the cluster.
#[derive(Clone, Debug, PartialEq, Eq)]
pub struct OdooClusterSpec {
    pub image: ProductImage,
    pub cluster_config: OdooClusterConfig,
    pub cluster_operation: ClusterOperation,
    pub webservers: Option<Role>,
    pub schedulers: Option<Role>,
    pub workers: Option<Role>,
}

/// Status of the cluster resource.
#[derive(Clone, Debug, PartialEq, Eq)]
pub struct OdooClusterStatus {
    pub conditions: Vec<ClusterCondition>,
}

/// Identity of the cluster object.
#[derive(Clone, Debug, PartialEq, Eq)]
pub struct ClusterMeta {
    pub name: Option<String>,
    pub namespace: Option<String>,
}

/// The cluster custom resource.
#[derive(Clone, Debug, PartialEq, Eq)]
pub struct OdooCluster {
    pub metadata: ClusterMeta,
    pub spec: OdooClusterSpec,
    pub status: Option<OdooClusterStatus>,
}

/// A reference to an [`OdooCluster`].
#[derive(Clone, Debug, PartialEq, Eq)]
pub struct OdooClusterRef {
    pub name: Option<String>,
    pub namespace: Option<String>,
}

/// Identifies a (cluster, role, role-group) triple; the addressing key of
/// every generated per-role-group resource.
#[derive(Clone, Debug, PartialEq, Eq)]
pub struct RoleGroupRef {
    pub cluster: String,
    pub role: String,
    pub role_group: String,
}

/// The object name of a per-role-group resource.
pub open spec fn spec_rolegroup_object_name(r: RoleGroupRef) -> Seq<char> {
    r.cluster@ + "-"@ + r.role@ + "-"@ + r.role_group@
}

impl RoleGroupRef {
    /// The name under which the role-group's resources are created.
    pub fn object_name(&self) -> (r: String)
        ensures
            r@ == spec_rolegroup_object_name(*self),
    {
        self.cluster.clone().concat("-").concat(self.role.as_str()).concat("-").concat(
            self.role_group.as_str(),
        )
    }
}

/// The name of the cluster object, or the empty string when unset.
pub open spec fn spec_cluster_name(c: OdooCluster) -> Seq<char> {
    match opt_str_view(c.metadata.name) {
        Some(n) => n,
        None => ""@,
    }
}

/// The role entry of the cluster spec for a role.
pub open spec fn spec_get_role(c: OdooCluster, role: OdooRole) -> Option<Role> {
    match role {
        OdooRole::Webserver => c.spec.webservers,
        OdooRole::Scheduler => c.spec.schedulers,
        OdooRole::Worker => c.spec.workers,
    }
}

/// The named role-group of a role, if declared.
pub open spec fn spec_find_role_group(s: Seq<(String, RoleGroup)>, name: Seq<char>) -> Option<
    RoleGroup,
>
    decreases s.len(),
{
    if s.len() == 0 {
        None
    } else if s[0].0@ == name {
        Some(s[0].1)
    } else {
        spec_find_role_group(s.subrange(1, s.len() as int), name)
    }
}

proof fn lemma_find_role_group_prefix(s: Seq<(String, RoleGroup)>, name: Seq<char>, i: int)
    requires
        0 <= i <= s.len(),
        forall|j: int| 0 <= j < i ==> s[j].0@ != name,
    ensures
        spec_find_role_group(s, name) == spec_find_role_group(s.subrange(i, s.len() as int), name),
    decreases i,
{
    if i > 0 {
        let rest = s.subrange(1, s.len() as int);
        lemma_find_role_group_prefix(rest, name, i - 1);
        assert(rest.subrange(i - 1, rest.len() as int) =~= s.subrange(i, s.len() as int));
    } else {
        assert(s.subrange(0, s.len() as int) =~= s);
    }
}

/// The effective role-group override layer: the declared fragment with the
/// legacy flat selector migrated into its affinity block, or an empty layer
/// when the role-group is not declared.
pub open spec fn spec_rolegroup_fragment(role: Role, rg_name: Seq<char>) -> OdooConfigFragmentView {
    match spec_find_role_group(role.role_groups@, rg_name) {
        Some(rg) => {
            let base = config_frag_view(rg.config.config);
            match rg.selector {
                Some(sel) => OdooConfigFragmentView {
                    affinity: crate::affinity::spec_add_legacy_selector(
                        base.affinity,
                        label_selector_view(sel),
                    ),
                    ..base
                },
                None => base,
            }
        },
        None => spec_empty_fragment(),
    }
}

/// The resolved per-role-group configuration, over views: role-group onto
/// role onto computed defaults, then structural validation.
pub open spec fn spec_merged_config(
    c: OdooCluster,
    role: OdooRole,
    rg_name: Seq<char>,
) -> crate::config::OdooConfigView
    recommends
        spec_get_role(c, role) is Some,
{
    let role_entry = spec_get_role(c, role)->0;
    spec_validate_config(
        spec_resolved_fragment(
            spec_default_config(spec_cluster_name(c), role),
            config_frag_view(role_entry.config.config),
            spec_rolegroup_fragment(role_entry, rg_name),
        ),
    )
}

impl OdooCluster {
    /// The name of the cluster object, or the empty string when unset.
    pub fn name_any(&self) -> (r: String)
        ensures
            r@ == spec_cluster_name(*self),
    {
        match &self.metadata.name {
            Some(n) => n.clone(),
            None => {
                proof {
                    reveal_strlit("");
                }
                let r = String::new();
                proof {
                    assert(r@ =~= ""@);
                }
                r
            },
        }
    }

    /// The role entry of the cluster spec for a role.
    pub fn get_role(&self, role: &OdooRole) -> (r: &Option<Role>)
        ensures
            *r == spec_get_role(*self, *role),
    {
        match role {
            OdooRole::Webserver => &self.spec.webservers,
            OdooRole::Scheduler => &self.spec.schedulers,
            OdooRole::Worker => &self.spec.workers,
        }
    }

    /// The first configured git-sync source, if any; further entries are
    /// deliberately not honored.
    pub fn git_sync(&self) -> (r: Option<&GitSync>)
        ensures
            match r {
                Some(g) => self.spec.cluster_config.dags_git_sync@.len() > 0 && *g
                    == self.spec.cluster_config.dags_git_sync@[0],
                None => self.spec.cluster_config.dags_git_sync@.len() == 0,
            },
    {
        if self.spec.cluster_config.dags_git_sync.len() > 0 {
            Some(&self.spec.cluster_config.dags_git_sync[0])
        } else {
            None
        }
    }

    /// The number of configured git-sync entries beyond the first; they are
    /// ignored, and this count is the user-visible diagnostic signal.
    pub fn ignored_git_sync_entries(&self) -> (r: usize)
        ensures
            r == if self.spec.cluster_config.dags_git_sync@.len() > 0 {
                self.spec.cluster_config.dags_git_sync@.len() - 1
            } else {
                0int
            },
    {
        if self.spec.cluster_config.dags_git_sync.len() > 0 {
            self.spec.cluster_config.dags_git_sync.len() - 1
        } else {
            0
        }
    }

    /// The name of the role-level load-balanced service.
    pub fn node_role_service_name(&self) -> (r: Option<String>)
        ensures
            opt_str_view(r) == opt_str_view(self.metadata.name),
    {
        crate::strutil::clone_opt_string(&self.metadata.name)
    }

    /// The status conditions, or none when no status was recorded yet.
    pub fn conditions(&self) -> (r: &[ClusterCondition])
        ensures
            match self.status {
                Some(ref s) => r@ == s.conditions@,
                None => r@.len() == 0,
            },
    {
        match &self.status {
            Some(s) => s.conditions.as_slice(),
            None => &[],
        }
    }

    /// Resolves and merges the configuration of one role-group: the
    /// role-group layer over the role layer over the computed defaults.
    /// Returns an error exactly when the addressed role is not declared in
    /// the cluster spec; with the computed defaults as base layer the
    /// merged fragment is always structurally complete.
    pub fn merged_config(&self, role: &OdooRole, rolegroup_ref: &RoleGroupRef) -> (r: Result<
        OdooConfig,
        Error,
    >)
        ensures
            r is Ok <==> spec_get_role(*self, *role) is Some,
            r is Ok ==> config_view(r->Ok_0) == spec_merged_config(
                *self,
                *role,
                rolegroup_ref.role_group@,
            ),
            r is Err ==> r->Err_0 matches Error::UnknownOdooRole { .. },
    {
        let cluster_name = self.name_any();
        let conf_defaults = default_config(cluster_name.as_str(), role);
        let role_entry = match self.get_role(role) {
            Some(re) => re,
            None => {
                return Err(
                    Error::UnknownOdooRole { role: role.name(), roles: OdooRole::roles() },
                );
            },
        };
        let conf_role = clone_config_fragment(&role_entry.config.config);

        let ghost rgs = role_entry.role_groups@;
        let ghost rg_name = rolegroup_ref.role_group@;
        let mut conf_rolegroup = empty_fragment();
        let mut found: bool = false;
        let mut idx: usize = 0;
        let n = role_entry.role_groups.len();
        let mut i: usize = 0;
        while i < n
            invariant
                n == rgs.len(),
                rgs == role_entry.role_groups@,
                rg_name == rolegroup_ref.role_group@,
                i <= n,
                !found ==> forall|j: int| 0 <= j < i ==> rgs[j].0@ != rg_name,
                found ==> idx < i && rgs[idx as int].0@ == rg_name && (forall|j: int|
                    0 <= j < idx ==> rgs[j].0@ != rg_name),
            decreases n - i,
        {
            if !found {
                let entry_name: &String = &role_entry.role_groups[i].0;
                let is_match = str_eq(entry_name.as_str(), rolegroup_ref.role_group.as_str());
                proof {
                    assert(*entry_name == rgs[i as int].0);
                    assert(is_match == (rgs[i as int].0@ == rg_name));
                }
                if is_match {
                    found = true;
                    idx = i;
                }
            }
            i += 1;
        }
        proof {
            if found {
                lemma_find_role_group_prefix(rgs, rg_name, idx as int);
            } else {
                lemma_find_role_group_prefix(rgs, rg_name, rgs.len() as int);
            }
        }
        if found {
            let rg = &role_entry.role_groups[idx].1;
            conf_rolegroup = clone_config_fragment(&rg.config.config);
            if let Some(selector) = &rg.selector {
                // Migrate the legacy flat `selector` attribute as an
                // additive step before the override layers merge.
                conf_rolegroup.affinity.add_legacy_selector(selector);
            }
        }

        proof {
            crate::config::lemma_default_config_complete(spec_cluster_name(*self), *role);
            crate::config::lemma_complete_defaults_resolve(
                spec_default_config(spec_cluster_name(*self), *role),
                config_frag_view(conf_role),
                config_frag_view(conf_rolegroup),
            );
        }
        match resolve(&conf_defaults, &conf_role, &conf_rolegroup) {
            Ok(c) => Ok(c),
            Err(source) => Err(Error::FragmentValidationFailure { source }),
        }
    }
}

} // verus!
verus! {

/// The extra volumes of the cluster's pods, at view level: the declared
/// list, or nothing.
pub open spec fn spec_cluster_volumes(c: OdooCluster) -> Seq<crate::k8s::VolumeView> {
    match c.spec.cluster_config.volumes {
        Some(v) => crate::k8s::volumes_view(v@),
        None => Seq::empty(),
    }
}

/// The extra volume mounts of the main container, at view level: the
/// declared list, then the git-checkout mount when a git-sync source is
/// configured.
pub open spec fn spec_cluster_volume_mounts(c: OdooCluster) -> Seq<(Seq<char>, Seq<char>)> {
    (match c.spec.cluster_config.volume_mounts {
        Some(v) => crate::k8s::mounts_view(v@),
        None => Seq::empty(),
    }) + if c.spec.cluster_config.dags_git_sync@.len() > 0 {
        seq![("content-from-git"@, "/stackable/app/git"@)]
    } else {
        Seq::empty()
    }
}

impl OdooCluster {
    /// The extra volumes declared on the cluster, as an owned list.
    pub fn volumes(&self) -> (r: Vec<crate::k8s::Volume>)
        ensures
            crate::k8s::volumes_view(r@) == spec_cluster_volumes(*self),
    {
        let r = match &self.spec.cluster_config.volumes {
            Some(v) => crate::k8s::clone_volumes(v),
            None => Vec::new(),
        };
        proof {
            assert(crate::k8s::volumes_view(Seq::<crate::k8s::Volume>::empty()) =~= Seq::<
                crate::k8s::VolumeView,
            >::empty());
        }
        r
    }

    /// The extra volume mounts of the main container, with the git
    /// checkout mounted when a git-sync source is configured.
    pub fn volume_mounts(&self) -> (r: Vec<crate::k8s::VolumeMount>)
        ensures
            crate::k8s::mounts_view(r@) == spec_cluster_volume_mounts(*self),
    {
        let mut mounts = match &self.spec.cluster_config.volume_mounts {
            Some(v) => crate::k8s::clone_mounts(v),
            None => Vec::new(),
        };
        if self.git_sync().is_some() {
            mounts.push(crate::k8s::volume_mount(GIT_CONTENT, GIT_SYNC_DIR));
        }
        proof {
            assert(crate::k8s::mounts_view(mounts@) =~= spec_cluster_volume_mounts(*self));
        }
        mounts
    }
}

} // verus!
verus! {

impl RoleGroupRef {
    /// Clones this reference, preserving its view.
    pub fn clone_ref(&self) -> (r: RoleGroupRef)
        ensures
            r.cluster@ == self.cluster@,
            r.role@ == self.role@,
            r.role_group@ == self.role_group@,
    {
        RoleGroupRef {
            cluster: self.cluster.clone(),
            role: self.role.clone(),
            role_group: self.role_group.clone(),
        }
    }
}

} // verus!
verus! {

/// A role-group found at a position with no earlier match is the lookup
/// result.
pub proof fn lemma_find_role_group_at(s: Seq<(String, RoleGroup)>, name: Seq<char>, j: int)
    requires
        0 <= j < s.len(),
        s[j].0@ == name,
        forall|k: int| 0 <= k < j ==> s[k].0@ != name,
    ensures
        spec_find_role_group(s, name) == Some(s[j].1),
{
    lemma_find_role_group_prefix(s, name, j);
}

/// With no match anywhere, the lookup finds nothing.
pub proof fn lemma_find_role_group_none(s: Seq<(String, RoleGroup)>, name: Seq<char>)
    requires
        forall|k: int| 0 <= k < s.len() ==> s[k].0@ != name,
    ensures
        spec_find_role_group(s, name) is None,
{
    lemma_find_role_group_prefix(s, name, s.len() as int);
}

} // verus!
verus! {

/// Role-group names of a role are unique, as the data model demands.
pub open spec fn spec_role_groups_unique(r: Role) -> bool {
    forall|i: int, j: int|
        0 <= i < j < r.role_groups@.len() ==> r.role_groups@[i].0@ != r.role_groups@[j].0@
}

/// Well-formedness of a cluster spec: every declared role has unique
/// role-group names.
pub open spec fn spec_cluster_wf(c: OdooCluster) -> bool {
    &&& (c.spec.webservers matches Some(r) ==> spec_role_groups_unique(r))
    &&& (c.spec.schedulers matches Some(r) ==> spec_role_groups_unique(r))
    &&& (c.spec.workers matches Some(r) ==> spec_role_groups_unique(r))
}

} // verus!
