//! Draining of Nomad client nodes: the Vault login, the Nomad API requests and the
//! decisions that drive a drain, with their contracts.

pub mod aws;
pub mod drain;
pub mod error;
pub mod http;
pub mod lambda;
pub mod nomad;
pub mod search;
pub mod text;
pub mod vault;

pub use crate::error::Error;
