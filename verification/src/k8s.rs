//! Plain models of the Kubernetes resources the reconcilers emit.  The
//! external resource manager turns these values into API objects, applies
//! them, and garbage-collects what is no longer desired; the core only
//! decides what the resources must look like.
use crate::affinity::StackableAffinity;
use vstd::prelude::*;

verus! {

/// An environment variable: a literal value or a reference to one key of a
/// secret.
#[derive(Clone, Debug, PartialEq, Eq)]
pub struct EnvVar {
    pub name: String,
    pub value: Option<String>,
    pub value_from_secret: Option<SecretKeySelector>,
}

/// A reference to one key of a named secret.
#[derive(Clone, Debug, PartialEq, Eq)]
pub struct SecretKeySelector {
    pub secret: String,
    pub key: String,
}

/// Character-level view of an [`EnvVar`].
pub struct EnvVarView {
    pub name: Seq<char>,
    pub value: Option<Seq<char>>,
    pub value_from_secret: Option<(Seq<char>, Seq<char>)>,
}

pub open spec fn env_var_view(e: EnvVar) -> EnvVarView {
    EnvVarView {
        name: e.name@,
        value: crate::strutil::opt_str_view(e.value),
        value_from_secret: match e.value_from_secret {
            Some(s) => Some((s.secret@, s.key@)),
            None => None,
        },
    }
}

pub open spec fn env_vars_view(s: Seq<EnvVar>) -> Seq<EnvVarView> {
    s.map_values(|e: EnvVar| env_var_view(e))
}

/// A literal environment variable.
pub open spec fn spec_env_literal(name: Seq<char>, value: Seq<char>) -> EnvVarView {
    EnvVarView { name: name, value: Some(value), value_from_secret: None }
}

/// An environment variable drawn from a key of a secret.
pub open spec fn spec_env_from_secret(
    name: Seq<char>,
    secret: Seq<char>,
    key: Seq<char>,
) -> EnvVarView {
    EnvVarView { name: name, value: None, value_from_secret: Some((secret, key)) }
}

/// Builds a literal environment variable.
pub fn env_literal(name: &str, value: String) -> (r: EnvVar)
    ensures
        env_var_view(r) == spec_env_literal(name@, value@),
{
    EnvVar { name: name.to_owned(), value: Some(value), value_from_secret: None }
}

/// Builds an environment variable that draws its value from a key of a
/// secret.
pub fn env_var_from_secret(name: &str, secret: &str, key: &str) -> (r: EnvVar)
    ensures
        env_var_view(r) == spec_env_from_secret(name@, secret@, key@),
{
    EnvVar {
        name: name.to_owned(),
        value: None,
        value_from_secret: Some(SecretKeySelector { secret: secret.to_owned(), key: key.to_owned() }),
    }
}

/// Object metadata: identity, labels, and whether the object carries an
/// owner reference back to the resource it was generated for.
#[derive(Clone, Debug, PartialEq, Eq)]
pub struct ObjectMeta {
    pub name: Option<String>,
    pub namespace: Option<String>,
    pub labels: Vec<(String, String)>,
    pub owner_referenced: bool,
}

/// One port of a service.
#[derive(Clone, Debug, PartialEq, Eq)]
pub struct ServicePort {
    pub name: Option<String>,
    pub port: i32,
    pub protocol: Option<String>,
}

/// The spec of a service.
#[derive(Clone, Debug, PartialEq, Eq)]
pub struct ServiceSpec {
    pub type_: Option<String>,
    pub cluster_ip: Option<String>,
    pub ports: Vec<ServicePort>,
    pub selector: Vec<(String, String)>,
    pub publish_not_ready_addresses: Option<bool>,
}

/// A service.
#[derive(Clone, Debug, PartialEq, Eq)]
pub struct Service {
    pub metadata: ObjectMeta,
    pub spec: ServiceSpec,
}

/// A config map: metadata plus file-name/content entries.
#[derive(Clone, Debug, PartialEq, Eq)]
pub struct ConfigMap {
    pub metadata: ObjectMeta,
    pub data: Vec<(String, String)>,
}

/// A TCP readiness/liveness probe.
#[derive(Clone, Debug, PartialEq, Eq)]
pub struct Probe {
    pub tcp_port: u16,
    pub initial_delay_seconds: i32,
    pub period_seconds: i32,
}

/// Requested and limited compute resources of a container.
#[derive(Clone, Debug, PartialEq, Eq)]
pub struct ResourceRequirements {
    pub cpu_request: Option<String>,
    pub cpu_limit: Option<String>,
    pub memory_request: Option<String>,
    pub memory_limit: Option<String>,
}

/// A volume mount of a container.
#[derive(Clone, Debug, PartialEq, Eq)]
pub struct VolumeMount {
    pub name: String,
    pub mount_path: String,
}

/// Where a pod volume comes from.
#[derive(Clone, Debug, PartialEq, Eq)]
pub enum VolumeSource {
    EmptyDir,
    FromConfigMap { config_map_name: String },
}

/// A pod volume.
#[derive(Clone, Debug, PartialEq, Eq)]
pub struct Volume {
    pub name: String,
    pub source: VolumeSource,
}

/// One container of a pod template.
#[derive(Clone, Debug, PartialEq, Eq)]
pub struct ContainerSpec {
    pub name: String,
    pub image: Option<String>,
    pub command: Vec<String>,
    pub args: Vec<String>,
    pub env: Vec<EnvVar>,
    pub volume_mounts: Vec<VolumeMount>,
    pub container_ports: Vec<(String, i32)>,
    pub resources: Option<ResourceRequirements>,
    pub readiness_probe: Option<Probe>,
    pub liveness_probe: Option<Probe>,
}

/// The security context of a pod.
#[derive(Clone, Copy, Debug, PartialEq, Eq, Structural)]
pub struct PodSecurityContext {
    pub run_as_user: i64,
    pub run_as_group: i64,
    pub fs_group: Option<i64>,
}

/// A pod template.
#[derive(Clone, Debug, PartialEq, Eq)]
pub struct PodTemplate {
    pub labels: Vec<(String, String)>,
    pub containers: Vec<ContainerSpec>,
    pub volumes: Vec<Volume>,
    pub service_account_name: Option<String>,
    pub security_context: Option<PodSecurityContext>,
    pub restart_policy: Option<String>,
    pub affinity: Option<StackableAffinity>,
}

/// The spec of a stateful workload.
#[derive(Clone, Debug, PartialEq, Eq)]
pub struct StatefulSetSpec {
    pub pod_management_policy: Option<String>,
    pub replicas: Option<i32>,
    pub selector_match_labels: Vec<(String, String)>,
    pub service_name: String,
    pub template: PodTemplate,
}

/// A stateful workload.
#[derive(Clone, Debug, PartialEq, Eq)]
pub struct StatefulSet {
    pub metadata: ObjectMeta,
    pub spec: StatefulSetSpec,
}

/// A one-shot job.
#[derive(Clone, Debug, PartialEq, Eq)]
pub struct Job {
    pub metadata: ObjectMeta,
    pub template: PodTemplate,
}

/// The observed state of a one-shot job, as reported by its status.
#[derive(Clone, Copy, Debug, PartialEq, Eq, Structural)]
pub enum JobState {
    InProgress,
    Complete,
    Failed,
}

/// The type of a cluster status condition.
#[derive(Clone, Copy, Debug, PartialEq, Eq, Structural)]
pub enum ClusterConditionType {
    Available,
    ReconciliationPaused,
    Stopped,
}

/// The status of a cluster condition.
#[derive(Clone, Copy, Debug, PartialEq, Eq, Structural)]
pub enum ClusterConditionStatus {
    True,
    False,
    Unknown,
}

/// One status condition of the cluster resource.
#[derive(Clone, Debug, PartialEq, Eq)]
pub struct ClusterCondition {
    pub type_: ClusterConditionType,
    pub status: ClusterConditionStatus,
    pub message: Option<String>,
}

/// Character-level view of a [`ClusterCondition`].
pub struct ClusterConditionView {
    pub type_: ClusterConditionType,
    pub status: ClusterConditionStatus,
    pub message: Option<Seq<char>>,
}

pub open spec fn condition_view(c: ClusterCondition) -> ClusterConditionView {
    ClusterConditionView {
        type_: c.type_,
        status: c.status,
        message: crate::strutil::opt_str_view(c.message),
    }
}

pub open spec fn conditions_view(s: Seq<ClusterCondition>) -> Seq<ClusterConditionView> {
    s.map_values(|c: ClusterCondition| condition_view(c))
}

/// What the surrounding control loop does after a reconcile pass.
#[derive(Clone, Copy, Debug, PartialEq, Eq, Structural)]
pub enum Action {
    AwaitChange,
    Requeue { seconds: u64 },
}

} // verus!
verus! {

/// Where a volume comes from, at view level.
pub enum VolumeSourceView {
    EmptyDir,
    FromConfigMap(Seq<char>),
}

/// Character-level view of a [`Volume`].
pub struct VolumeView {
    pub name: Seq<char>,
    pub source: VolumeSourceView,
}

pub open spec fn volume_view(v: Volume) -> VolumeView {
    VolumeView {
        name: v.name@,
        source: match v.source {
            VolumeSource::EmptyDir => VolumeSourceView::EmptyDir,
            VolumeSource::FromConfigMap { config_map_name } => VolumeSourceView::FromConfigMap(
                config_map_name@,
            ),
        },
    }
}

pub open spec fn volumes_view(s: Seq<Volume>) -> Seq<VolumeView> {
    s.map_values(|v: Volume| volume_view(v))
}

pub open spec fn mount_view(m: VolumeMount) -> (Seq<char>, Seq<char>) {
    (m.name@, m.mount_path@)
}

pub open spec fn mounts_view(s: Seq<VolumeMount>) -> Seq<(Seq<char>, Seq<char>)> {
    s.map_values(|m: VolumeMount| mount_view(m))
}

/// Clones a volume, preserving its view.
pub fn clone_volume(v: &Volume) -> (r: Volume)
    ensures
        volume_view(r) == volume_view(*v),
{
    Volume {
        name: v.name.clone(),
        source: match &v.source {
            VolumeSource::EmptyDir => VolumeSource::EmptyDir,
            VolumeSource::FromConfigMap { config_map_name } => VolumeSource::FromConfigMap {
                config_map_name: config_map_name.clone(),
            },
        },
    }
}

/// Clones a list of volumes, preserving its view.
pub fn clone_volumes(s: &Vec<Volume>) -> (r: Vec<Volume>)
    ensures
        volumes_view(r@) == volumes_view(s@),
{
    let mut r: Vec<Volume> = Vec::new();
    let mut i: usize = 0;
    while i < s.len()
        invariant
            i <= s@.len(),
            r@.len() == i,
            forall|j: int| 0 <= j < i ==> volume_view(r@[j]) == volume_view(s@[j]),
        decreases s@.len() - i,
    {
        r.push(clone_volume(&s[i]));
        i += 1;
    }
    proof {
        assert(volumes_view(r@) =~= volumes_view(s@));
    }
    r
}

/// Builds a volume mount.
pub fn volume_mount(name: &str, mount_path: &str) -> (r: VolumeMount)
    ensures
        mount_view(r) == (name@, mount_path@),
{
    VolumeMount { name: name.to_owned(), mount_path: mount_path.to_owned() }
}

/// Clones a list of volume mounts, preserving its view.
pub fn clone_mounts(s: &Vec<VolumeMount>) -> (r: Vec<VolumeMount>)
    ensures
        mounts_view(r@) == mounts_view(s@),
{
    let mut r: Vec<VolumeMount> = Vec::new();
    let mut i: usize = 0;
    while i < s.len()
        invariant
            i <= s@.len(),
            r@.len() == i,
            forall|j: int| 0 <= j < i ==> mount_view(r@[j]) == mount_view(s@[j]),
        decreases s@.len() - i,
    {
        r.push(VolumeMount { name: s[i].name.clone(), mount_path: s[i].mount_path.clone() });
        i += 1;
    }
    proof {
        assert(mounts_view(r@) =~= mounts_view(s@));
    }
    r
}

} // verus!
