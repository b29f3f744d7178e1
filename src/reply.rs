use crate::engine::NetworkError;
use crate::request::RequestError;
use vstd::prelude::*;

verus! {

/// The status and body that the deploy endpoint answers with.
pub struct HttpReply {
    pub status: u16,
    pub body: String,
}

pub open spec fn ok_body() -> Seq<char> {
    "{\"status\":\"ok\"}"@
}

pub open spec fn is_success_status(status: u16) -> bool {
    200 <= status < 300
}

/// The status answered for a finished reconcile.
pub open spec fn outcome_status(result: Result<(), NetworkError>) -> u16 {
    match result {
        Ok(()) => 200,
        Err(_) => 502,
    }
}

/// Success answers `200` with `{"status":"ok"}`; a network failure on any
/// call answers `502`, naming the call that failed.
pub fn reply_for_outcome(result: Result<(), NetworkError>) -> (r: HttpReply)
    ensures
        r.status == outcome_status(result),
        result is Ok ==> r.body@ == ok_body(),
{
    match result {
        Ok(()) => HttpReply { status: 200, body: String::from_str("{\"status\":\"ok\"}") },
        Err(e) => {
            let mut body = String::from_str("cluster API unreachable while ");
            match e.method {
                crate::engine::Method::Delete => body.append("deleting "),
                crate::engine::Method::Post => body.append("creating "),
            }
            match e.kind {
                crate::urls::ResourceKind::Deployment => body.append("the deployment"),
                crate::urls::ResourceKind::Ingress => body.append("the ingress"),
                crate::urls::ResourceKind::Service => body.append("the service"),
            }
            HttpReply { status: 502, body }
        },
    }
}

/// A request that could not be decoded into a deploy is answered `400`
/// before any reconcile starts.
pub fn reply_for_rejection(e: RequestError) -> (r: HttpReply)
    ensures
        r.status == 400,
{
    let body = match e {
        RequestError::MissingName => "missing field: name",
        RequestError::MissingTag => "missing field: tag",
        RequestError::MissingBuildId => "missing field: build_id",
        RequestError::InvalidName => "name is not a valid resource name",
    };
    HttpReply { status: 400, body: String::from_str(body) }
}

} // verus!
