//! A verified model of an operator that provisions a multi-role Odoo
//! deployment on Kubernetes and drives a one-shot database-initialization
//! workflow.
//!
//! The crate contains the reconciliation and configuration-resolution core:
//! the hierarchical configuration-merge engine, the affinity policy builder,
//! the database-bootstrap state machine, and the pure planning halves of the
//! two reconcilers.  All I/O (watches, apply calls, job polling) belongs to
//! the surrounding binary, which feeds plain values in and carries the
//! computed plans out.
use vstd::prelude::*;

pub mod affinity;
pub mod auth;
pub mod config;
pub mod controller;
pub mod crd;
pub mod db_controller;
pub mod envs;
pub mod k8s;
pub mod labels;
pub mod logging;
pub mod odoodb;
pub mod pyconfig;
pub mod resources;
pub mod role;
pub mod string_map;
pub mod strutil;

verus! {

/// Application name used in recommended labels and selectors.
pub const APP_NAME: &'static str = "odoo";

/// Operator name used as the field manager for status patches.
pub const OPERATOR_NAME: &'static str = "odoo.sovrin.cloud";

} // verus!
