use vstd::prelude::*;

verus! {

/// The static cluster settings, loaded once at startup and shared read-only
/// by every request.
#[derive(Clone)]
pub struct ClusterConfig {
    pub api_url: String,
    pub namespace: String,
    pub registry: String,
    pub cpu_limit: String,
    pub memory_limit: String,
    pub cpu_request: String,
    pub memory_request: String,
}

} // verus!
