//! Harbor scan notifications: the decisions of the webhook handler, the
//! GitHub issue bookkeeping and the Trivy configuration checks, verified.

pub mod text;
pub mod config;
pub mod pkg;
pub mod webhook;
