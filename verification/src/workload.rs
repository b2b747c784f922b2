//! The description of a single-container Deployment with its Service, as the
//! services hand it over to be applied to the cluster.
use vstd::prelude::*;
use vstd::string::*;

verus! {

/// Where the value of an environment variable comes from.
pub enum EnvSource {
    /// A literal value.
    Value(String),
    /// A key of a secret in the same namespace.
    SecretKey { secret: String, key: String },
}

pub enum EnvSourceView {
    Value(Seq<char>),
    SecretKey { secret: Seq<char>, key: Seq<char> },
}

/// An environment variable of the container.
pub struct EnvVar {
    pub name: String,
    pub source: EnvSource,
}

pub struct EnvVarView {
    pub name: Seq<char>,
    pub source: EnvSourceView,
}

impl View for EnvSource {
    type V = EnvSourceView;

    open spec fn view(&self) -> EnvSourceView {
        match self {
            EnvSource::Value(v) => EnvSourceView::Value(v@),
            EnvSource::SecretKey { secret, key } => EnvSourceView::SecretKey {
                secret: secret@,
                key: key@,
            },
        }
    }
}

impl View for EnvVar {
    type V = EnvVarView;

    open spec fn view(&self) -> EnvVarView {
        EnvVarView { name: self.name@, source: self.source@ }
    }
}

/// A variable with a literal value.
pub open spec fn value_var(name: Seq<char>, value: Seq<char>) -> EnvVarView {
    EnvVarView { name, source: EnvSourceView::Value(value) }
}

/// A variable read from a key of a secret.
pub open spec fn secret_var(name: Seq<char>, secret: Seq<char>, key: Seq<char>) -> EnvVarView {
    EnvVarView { name, source: EnvSourceView::SecretKey { secret, key } }
}

pub open spec fn env_view(env: Seq<EnvVar>) -> Seq<EnvVarView> {
    env.map_values(|e: EnvVar| e@)
}

pub fn value_env(name: &str, value: &str) -> (e: EnvVar)
    ensures
        e@ == value_var(name@, value@),
{
    EnvVar { name: String::from_str(name), source: EnvSource::Value(String::from_str(value)) }
}

pub fn secret_env(name: &str, secret: &str, key: &str) -> (e: EnvVar)
    ensures
        e@ == secret_var(name@, secret@, key@),
{
    EnvVar {
        name: String::from_str(name),
        source: EnvSource::SecretKey { secret: String::from_str(secret), key: String::from_str(key) },
    }
}

/// The command and arguments that replace the image's entrypoint.
pub struct Command {
    pub command: Vec<String>,
    pub args: Vec<String>,
}

/// A volume mounted into the container.
pub struct VolumeMount {
    pub name: String,
    pub mount_path: String,
}

/// A volume backed by a config map.
pub struct ConfigMapVolume {
    pub name: String,
    pub config_map: String,
}

/// A Deployment of one container and the Service in front of its port.
pub struct ServiceDeployment {
    pub name: String,
    pub image_name: String,
    pub replicas: i32,
    pub port: u16,
    pub env: Vec<EnvVar>,
    pub command: Option<Command>,
    pub volume_mounts: Vec<VolumeMount>,
    pub volumes: Vec<ConfigMapVolume>,
}

} // verus!
