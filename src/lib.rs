//! Reconciles the workload, ingress and service of a project on a cluster
//! whenever a build is published: request checking, the cluster-API paths,
//! the manifests, the bearer credentials and the delete-then-create protocol.

pub mod client;
pub mod config;
pub mod engine;
pub mod laws;
pub mod manifest;
pub mod reply;
pub mod request;
pub mod urls;
