//! Per-container logging configuration, in fragment and resolved form.
//!
//! The log-shipping side-car ("vector") is wired up by the external resource
//! manager; the core only resolves whether it is enabled and which level each
//! container logs at.
use crate::resources::opt_or;
use vstd::prelude::*;

verus! {

/// A log level threshold for one container.
#[derive(Clone, Copy, Debug, PartialEq, Eq, Structural)]
pub enum LogLevel {
    Trace,
    Debug,
    Info,
    Warn,
    Error,
    Fatal,
}

/// Resolved logging configuration of one container.
#[derive(Clone, Copy, Debug, PartialEq, Eq, Structural)]
pub struct ContainerLogConfig {
    pub level: LogLevel,
}

/// Override layer for [`ContainerLogConfig`].
#[derive(Clone, Copy, Debug, PartialEq, Eq, Structural)]
pub struct ContainerLogConfigFragment {
    pub level: Option<LogLevel>,
}

/// Resolved logging configuration of a role-group pod: whether the log
/// agent side-car runs, and the level of each container.
#[derive(Clone, Copy, Debug, PartialEq, Eq, Structural)]
pub struct Logging {
    pub enable_vector_agent: bool,
    pub main: ContainerLogConfig,
    pub vector: ContainerLogConfig,
}

/// Override layer for [`Logging`].
#[derive(Clone, Copy, Debug, PartialEq, Eq, Structural)]
pub struct LoggingFragment {
    pub enable_vector_agent: Option<bool>,
    pub main: ContainerLogConfigFragment,
    pub vector: ContainerLogConfigFragment,
}

/// The default logging layer: agent disabled, both containers at `Info`.
pub open spec fn spec_default_logging() -> LoggingFragment {
    LoggingFragment {
        enable_vector_agent: Some(false),
        main: ContainerLogConfigFragment { level: Some(LogLevel::Info) },
        vector: ContainerLogConfigFragment { level: Some(LogLevel::Info) },
    }
}

/// Builds the default logging layer.
pub fn default_logging() -> (r: LoggingFragment)
    ensures
        r == spec_default_logging(),
{
    LoggingFragment {
        enable_vector_agent: Some(false),
        main: ContainerLogConfigFragment { level: Some(LogLevel::Info) },
        vector: ContainerLogConfigFragment { level: Some(LogLevel::Info) },
    }
}

/// Merge of logging fragments: every field of the more specific layer wins
/// when set.
pub open spec fn spec_merge_logging(own: LoggingFragment, other: LoggingFragment) -> LoggingFragment {
    LoggingFragment {
        enable_vector_agent: opt_or(own.enable_vector_agent, other.enable_vector_agent),
        main: ContainerLogConfigFragment { level: opt_or(own.main.level, other.main.level) },
        vector: ContainerLogConfigFragment { level: opt_or(own.vector.level, other.vector.level) },
    }
}

/// Merges a logging fragment with a less specific layer.
pub fn merge_logging(own: &LoggingFragment, other: &LoggingFragment) -> (r: LoggingFragment)
    ensures
        r == spec_merge_logging(*own, *other),
{
    LoggingFragment {
        enable_vector_agent: match own.enable_vector_agent {
            Some(v) => Some(v),
            None => other.enable_vector_agent,
        },
        main: ContainerLogConfigFragment {
            level: match own.main.level {
                Some(v) => Some(v),
                None => other.main.level,
            },
        },
        vector: ContainerLogConfigFragment {
            level: match own.vector.level {
                Some(v) => Some(v),
                None => other.vector.level,
            },
        },
    }
}

/// A logging fragment validates when every field is set.
pub open spec fn logging_frag_complete(x: LoggingFragment) -> bool {
    &&& x.enable_vector_agent is Some
    &&& x.main.level is Some
    &&& x.vector.level is Some
}

/// The resolved logging of a complete fragment.
pub open spec fn spec_validate_logging(x: LoggingFragment) -> Logging
    recommends
        logging_frag_complete(x),
{
    Logging {
        enable_vector_agent: x.enable_vector_agent->0,
        main: ContainerLogConfig { level: x.main.level->0 },
        vector: ContainerLogConfig { level: x.vector.level->0 },
    }
}

/// Checks a logging fragment for structural completeness and resolves it.
/// Returns the name of the first missing field otherwise.
pub fn validate_logging(x: &LoggingFragment) -> (r: Result<Logging, String>)
    ensures
        r is Ok <==> logging_frag_complete(*x),
        r is Ok ==> r->Ok_0 == spec_validate_logging(*x),
{
    let enable_vector_agent = match x.enable_vector_agent {
        Some(v) => v,
        None => {
            return Err(String::from_str("logging.enableVectorAgent"));
        },
    };
    let main_level = match x.main.level {
        Some(v) => v,
        None => {
            return Err(String::from_str("logging.containers.odoo"));
        },
    };
    let vector_level = match x.vector.level {
        Some(v) => v,
        None => {
            return Err(String::from_str("logging.containers.vector"));
        },
    };
    Ok(Logging {
        enable_vector_agent,
        main: ContainerLogConfig { level: main_level },
        vector: ContainerLogConfig { level: vector_level },
    })
}

} // verus!
