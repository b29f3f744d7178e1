use crate::config::ClusterConfig;
use crate::engine::{
    call_count, finished, outcome, planned_kind, planned_method, Event, Method, NetworkError,
};
use crate::manifest::manifest_of;
use crate::reply::{is_success_status, outcome_status};
use crate::request::DeployRequest;
use crate::urls::ResourceKind;
use vstd::prelude::*;

verus! {

/// A reconcile whose calls all come back with a status makes exactly six
/// calls: it is not over before the sixth answer and is over after it. The
/// calls delete and then create the Deployment, then the Ingress, then the
/// Service.
pub proof fn lemma_six_calls_in_fixed_order(h: Seq<Event>)
    requires
        h.len() == call_count(),
        forall|i: int| 0 <= i < h.len() ==> (#[trigger] h[i]) is Status,
    ensures
        finished(h),
        forall|j: int| 0 <= j < call_count() ==> !finished(#[trigger] h.take(j)),
        forall|k: int|
            0 <= k < call_count() ==> #[trigger] planned_method(k) == (if k % 2 == 0 {
                Method::Delete
            } else {
                Method::Post
            }),
        planned_kind(0) == ResourceKind::Deployment,
        planned_kind(1) == ResourceKind::Deployment,
        planned_kind(2) == ResourceKind::Ingress,
        planned_kind(3) == ResourceKind::Ingress,
        planned_kind(4) == ResourceKind::Service,
        planned_kind(5) == ResourceKind::Service,
{
    assert forall|j: int| 0 <= j < call_count() implies !finished(#[trigger] h.take(j)) by {
        if j > 0 {
            assert(h.take(j).last() == h[j - 1]);
        }
    }
}

/// Whatever status codes the six calls return, two-hundreds or not, the
/// reconcile succeeds and the endpoint answers `200`.
pub proof fn lemma_any_statuses_answer_ok(h: Seq<Event>)
    requires
        h.len() == call_count(),
        forall|i: int| 0 <= i < h.len() ==> (#[trigger] h[i]) is Status,
    ensures
        finished(h),
        outcome(h) == Ok::<(), NetworkError>(()),
        outcome_status(outcome(h)) == 200,
{
    assert(h.last() == h[h.len() - 1]);
}

/// A transport failure on any call ends the reconcile at once, so no later
/// call is made, fails it with that call named, and the endpoint answers
/// with a status outside the two-hundreds.
pub proof fn lemma_transport_failure_fails_request(h: Seq<Event>)
    requires
        crate::engine::valid_history(h),
        h.len() > 0,
        h.last() is TransportFailure,
    ensures
        finished(h),
        outcome(h) == Err::<(), NetworkError>(
            NetworkError { kind: planned_kind(h.len() - 1), method: planned_method(h.len() - 1) },
        ),
        !is_success_status(outcome_status(outcome(h))),
{
}

/// A manifest depends on the fields it shows and on nothing else: requests
/// and configurations that agree on them render the same text.
pub proof fn lemma_manifest_deterministic(
    kind: ResourceKind,
    req1: &DeployRequest,
    cfg1: &ClusterConfig,
    req2: &DeployRequest,
    cfg2: &ClusterConfig,
)
    requires
        req1.name@ == req2.name@,
        req1.tag@ == req2.tag@,
        cfg1.namespace@ == cfg2.namespace@,
        cfg1.registry@ == cfg2.registry@,
        cfg1.cpu_limit@ == cfg2.cpu_limit@,
        cfg1.memory_limit@ == cfg2.memory_limit@,
        cfg1.cpu_request@ == cfg2.cpu_request@,
        cfg1.memory_request@ == cfg2.memory_request@,
    ensures
        manifest_of(kind, req1, cfg1) == manifest_of(kind, req2, cfg2),
{
}

} // verus!
