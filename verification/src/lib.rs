//! Decision logic of an operator that puts Kubernetes workloads on a headscale
//! tailnet.

pub mod annotations;
pub mod auth_key;
pub mod context;
pub mod dns;
pub mod error;
pub mod expose;
pub mod external_service;
pub mod forwards;
pub mod headscale_instance;
pub mod instance;
pub mod json;
pub mod laws;
pub mod names;
pub mod objects;
pub mod provision;
pub mod resources;
pub mod serve;
pub mod sort;
pub mod step;
pub mod support;
pub mod text;
pub mod textmap;
pub mod workload;
