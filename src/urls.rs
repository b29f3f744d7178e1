use vstd::prelude::*;
use vstd::string::*;

verus! {

/// The three resource kinds that a deploy reconciles, in the order they are
/// processed.
#[derive(Debug, Clone, Copy, PartialEq, Eq, Structural)]
pub enum ResourceKind {
    Deployment,
    Ingress,
    Service,
}

/// The kind processed in round `k` of a reconcile: Deployment, then Ingress,
/// then Service.
pub open spec fn kind_at(k: int) -> ResourceKind {
    if k == 0 {
        ResourceKind::Deployment
    } else if k == 1 {
        ResourceKind::Ingress
    } else {
        ResourceKind::Service
    }
}

pub open spec fn deployment_url_of(api: Seq<char>, ns: Seq<char>) -> Seq<char> {
    api + "/apis/apps/v1/namespaces/"@ + ns + "/deployments"@
}

pub open spec fn ingress_url_of(api: Seq<char>, ns: Seq<char>) -> Seq<char> {
    api + "/apis/networking.k8s.io/v1beta1/namespaces/"@ + ns + "/ingresses"@
}

pub open spec fn service_url_of(api: Seq<char>, ns: Seq<char>) -> Seq<char> {
    api + "/api/v1/namespaces/"@ + ns + "/services"@
}

/// The collection URL of a kind, under the API base and the namespace.
pub open spec fn collection_url_of(kind: ResourceKind, api: Seq<char>, ns: Seq<char>) -> Seq<
    char,
> {
    match kind {
        ResourceKind::Deployment => deployment_url_of(api, ns),
        ResourceKind::Ingress => ingress_url_of(api, ns),
        ResourceKind::Service => service_url_of(api, ns),
    }
}

/// The URL of one named resource inside a collection.
pub open spec fn item_url_of(collection: Seq<char>, name: Seq<char>) -> Seq<char> {
    collection + "/"@ + name
}

pub fn deployment_url(api_url: &str, namespace: &str) -> (r: String)
    ensures
        r@ == deployment_url_of(api_url@, namespace@),
{
    let mut s = String::from_str(api_url);
    s.append("/apis/apps/v1/namespaces/");
    s.append(namespace);
    s.append("/deployments");
    s
}

pub fn ingress_url(api_url: &str, namespace: &str) -> (r: String)
    ensures
        r@ == ingress_url_of(api_url@, namespace@),
{
    let mut s = String::from_str(api_url);
    s.append("/apis/networking.k8s.io/v1beta1/namespaces/");
    s.append(namespace);
    s.append("/ingresses");
    s
}

pub fn serivce_url(api_url: &str, namespace: &str) -> (r: String)
    ensures
        r@ == service_url_of(api_url@, namespace@),
{
    let mut s = String::from_str(api_url);
    s.append("/api/v1/namespaces/");
    s.append(namespace);
    s.append("/services");
    s
}

impl ResourceKind {
    pub fn collection_url(&self, api_url: &str, namespace: &str) -> (r: String)
        ensures
            r@ == collection_url_of(*self, api_url@, namespace@),
    {
        match self {
            ResourceKind::Deployment => deployment_url(api_url, namespace),
            ResourceKind::Ingress => ingress_url(api_url, namespace),
            ResourceKind::Service => serivce_url(api_url, namespace),
        }
    }
}

pub fn item_url(collection: &str, name: &str) -> (r: String)
    ensures
        r@ == item_url_of(collection@, name@),
{
    let mut s = String::from_str(collection);
    s.append("/");
    s.append(name);
    s
}

} // verus!
