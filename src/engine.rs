use crate::config::ClusterConfig;
use crate::manifest::{manifest_of, render};
use crate::request::DeployRequest;
use crate::urls::{collection_url_of, item_url, item_url_of, kind_at, ResourceKind};
use vstd::prelude::*;

verus! {

#[derive(Debug, Clone, Copy, PartialEq, Eq, Structural)]
pub enum Method {
    Delete,
    Post,
}

/// One call to the cluster API. A `Post` carries the manifest as its JSON body.
pub struct ApiCall {
    pub kind: ResourceKind,
    pub method: Method,
    pub url: String,
    pub body: Option<String>,
}

/// What came back from a call: a status code of any value, or a failure of
/// the transport (refused connection, TLS failure, timeout).
#[derive(Debug, Clone, Copy, PartialEq, Eq, Structural)]
pub enum Event {
    Status(u16),
    TransportFailure,
}

/// The call whose transport failed, which fails the whole reconcile.
#[derive(Debug, Clone, Copy, PartialEq, Eq, Structural)]
pub struct NetworkError {
    pub kind: ResourceKind,
    pub method: Method,
}

/// What the engine wants next: one more call, or the end with its result.
pub enum Action {
    Issue(ApiCall),
    Finish(Result<(), NetworkError>),
}

/// The number of cluster-API calls of a complete reconcile: a delete and a
/// create for each of the three kinds.
pub open spec fn call_count() -> nat {
    6
}

/// Call `k` deletes when `k` is even and creates when it is odd.
pub open spec fn planned_method(k: int) -> Method {
    if k % 2 == 0 {
        Method::Delete
    } else {
        Method::Post
    }
}

/// Calls `2i` and `2i + 1` concern the kind of round `i`.
pub open spec fn planned_kind(k: int) -> ResourceKind {
    kind_at(k / 2)
}

/// A delete names the project inside the collection; a create posts to the
/// collection itself.
pub open spec fn planned_url(req: &DeployRequest, cfg: &ClusterConfig, k: int) -> Seq<char> {
    let collection = collection_url_of(planned_kind(k), cfg.api_url@, cfg.namespace@);
    if k % 2 == 0 {
        item_url_of(collection, req.name@)
    } else {
        collection
    }
}

pub open spec fn planned_body(req: &DeployRequest, cfg: &ClusterConfig, k: int) -> Option<
    Seq<char>,
> {
    if k % 2 == 0 {
        None
    } else {
        Some(manifest_of(planned_kind(k), req, cfg))
    }
}

pub open spec fn body_view(b: Option<String>) -> Option<Seq<char>> {
    match b {
        Some(s) => Some(s@),
        None => None,
    }
}

impl ApiCall {
    /// This is call `k` of the reconcile of `req` under `cfg`.
    pub open spec fn is_planned(&self, req: &DeployRequest, cfg: &ClusterConfig, k: int) -> bool {
        &&& self.kind == planned_kind(k)
        &&& self.method == planned_method(k)
        &&& self.url@ == planned_url(req, cfg, k)
        &&& body_view(self.body) == planned_body(req, cfg, k)
    }
}

/// The answers a reconcile can have had so far: at most one per planned
/// call, and a transport failure only as the last one.
pub open spec fn valid_history(h: Seq<Event>) -> bool {
    &&& h.len() <= call_count()
    &&& forall|i: int| 0 <= i < h.len() - 1 ==> (#[trigger] h[i]) is Status
}

/// The reconcile is over: every call was answered with a status, or the
/// last one failed in transport.
pub open spec fn finished(h: Seq<Event>) -> bool {
    h.len() >= call_count() || (h.len() > 0 && h.last() is TransportFailure)
}

/// The result of a finished reconcile. Status codes are never inspected:
/// only a transport failure fails it.
pub open spec fn outcome(h: Seq<Event>) -> Result<(), NetworkError> {
    if h.len() > 0 && h.last() is TransportFailure {
        Err(NetworkError { kind: planned_kind(h.len() - 1), method: planned_method(h.len() - 1) })
    } else {
        Ok(())
    }
}

/// The reconcile of one request: it hands out the delete and create calls
/// in their fixed order and takes back what each returned.
pub struct ReconcileEngine {
    request: DeployRequest,
    config: ClusterConfig,
    history: Vec<Event>,
}

impl ReconcileEngine {
    pub closed spec fn request(&self) -> DeployRequest {
        self.request
    }

    pub closed spec fn config(&self) -> ClusterConfig {
        self.config
    }

    /// The answers recorded so far, one per call issued.
    pub closed spec fn history(&self) -> Seq<Event> {
        self.history@
    }

    pub open spec fn wf(&self) -> bool {
        self.request().wf() && valid_history(self.history())
    }

    pub fn new(request: DeployRequest, config: ClusterConfig) -> (r: Self)
        requires
            request.wf(),
        ensures
            r.wf(),
            r.request() == request,
            r.config() == config,
            r.history() == Seq::<Event>::empty(),
    {
        ReconcileEngine { request, config, history: Vec::new() }
    }

    pub fn is_finished(&self) -> (r: bool)
        requires
            self.wf(),
        ensures
            r == finished(self.history()),
    {
        let n = self.history.len();
        n >= 6 || (n > 0 && matches!(self.history[n - 1], Event::TransportFailure))
    }

    /// The next call to make, or the result once the reconcile is over.
    pub fn next_action(&self) -> (r: Action)
        requires
            self.wf(),
        ensures
            !finished(self.history()) ==> (r matches Action::Issue(c) && c.is_planned(
                &self.request(),
                &self.config(),
                self.history().len() as int,
            )),
            finished(self.history()) ==> r == Action::Finish(outcome(self.history())),
    {
        let n = self.history.len();
        if n > 0 && matches!(self.history[n - 1], Event::TransportFailure) {
            let k = n - 1;
            let kind = kind_of_call(k);
            let method = if k % 2 == 0 {
                Method::Delete
            } else {
                Method::Post
            };
            return Action::Finish(Err(NetworkError { kind, method }));
        }
        if n >= 6 {
            return Action::Finish(Ok(()));
        }
        let kind = kind_of_call(n);
        let collection = kind.collection_url(
            self.config.api_url.as_str(),
            self.config.namespace.as_str(),
        );
        if n % 2 == 0 {
            let url = item_url(collection.as_str(), self.request.name.as_str());
            Action::Issue(ApiCall { kind, method: Method::Delete, url, body: None })
        } else {
            let body = render(kind, &self.request, &self.config);
            Action::Issue(ApiCall { kind, method: Method::Post, url: collection, body: Some(body) })
        }
    }

    /// Records what the call last issued returned.
    pub fn record(&mut self, event: Event)
        requires
            old(self).wf(),
            !finished(old(self).history()),
        ensures
            final(self).wf(),
            final(self).history() == old(self).history().push(event),
            final(self).request() == old(self).request(),
            final(self).config() == old(self).config(),
    {
        self.history.push(event);
    }

    /// The per-call answers recorded so far, in the order of the calls.
    pub fn events(&self) -> (r: &[Event])
        ensures
            r@ == self.history(),
    {
        self.history.as_slice()
    }
}

fn kind_of_call(k: usize) -> (r: ResourceKind)
    ensures
        r == planned_kind(k as int),
{
    if k < 2 {
        ResourceKind::Deployment
    } else if k < 4 {
        ResourceKind::Ingress
    } else {
        ResourceKind::Service
    }
}

} // verus!
