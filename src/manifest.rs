use crate::config::ClusterConfig;
use crate::request::DeployRequest;
use crate::urls::ResourceKind;
use vstd::prelude::*;
use vstd::string::*;

verus! {

/// Lowercase hexadecimal digits, indexed by value.
pub open spec fn hex_digits() -> Seq<char> {
    "0123456789abcdef"@
}

/// How one character stands inside a JSON string literal.
pub open spec fn escape_char(c: char) -> Seq<char> {
    if c == '"' {
        seq!['\\', '"']
    } else if c == '\\' {
        seq!['\\', '\\']
    } else if (c as u32) < 32 {
        seq!['\\', 'u', '0', '0', hex_digits()[((c as u32) / 16) as int], hex_digits()[((c as u32) % 16) as int]]
    } else {
        seq![c]
    }
}

/// The text of a JSON string literal (without its quotes) that reads as `s`.
pub open spec fn json_escape(s: Seq<char>) -> Seq<char>
    decreases s.len(),
{
    if s.len() == 0 {
        seq![]
    } else {
        json_escape(s.drop_last()) + escape_char(s.last())
    }
}

/// Appends `s` escaped for a JSON string literal.
pub fn push_escaped(out: &mut String, s: &str)
    ensures
        final(out)@ == old(out)@ + json_escape(s@),
{
    let ghost start = out@;
    let hex = "0123456789abcdef";
    proof {
        reveal_strlit("0123456789abcdef");
    }
    let n = s.unicode_len();
    let mut i: usize = 0;
    while i < n
        invariant
            n == s@.len(),
            i <= n,
            hex@ == hex_digits(),
            hex@.len() == 16,
            out@ == start + json_escape(s@.subrange(0, i as int)),
        decreases n - i,
    {
        let c = s.get_char(i);
        let ghost before = out@;
        if c == '"' {
            proof {
                reveal_strlit("\\\"");
            }
            assert("\\\""@ =~= seq!['\\', '"']);
            out.append("\\\"");
            assert(out@ =~= before + escape_char(c));
        } else if c == '\\' {
            proof {
                reveal_strlit("\\\\");
            }
            assert("\\\\"@ =~= seq!['\\', '\\']);
            out.append("\\\\");
            assert(out@ =~= before + escape_char(c));
        } else if (c as u32) < 32 {
            let code = c as u32;
            let hi = (code / 16) as usize;
            let lo = (code % 16) as usize;
            proof {
                reveal_strlit("\\u00");
            }
            assert("\\u00"@ =~= seq!['\\', 'u', '0', '0']);
            out.append("\\u00");
            let h = hex.substring_char(hi, hi + 1);
            let l = hex.substring_char(lo, lo + 1);
            assert(h@ =~= seq![hex_digits()[hi as int]]);
            assert(l@ =~= seq![hex_digits()[lo as int]]);
            out.append(h);
            out.append(l);
            assert(out@ =~= before + escape_char(c));
        } else {
            out.append(s.substring_char(i, i + 1));
            assert(out@ =~= before + escape_char(c));
        }
        let ghost t = s@.subrange(0, i as int + 1);
        assert(t.drop_last() =~= s@.subrange(0, i as int));
        assert(t.last() == c);
        assert(out@ =~= start + json_escape(t));
        i = i + 1;
    }
    assert(s@.subrange(0, n as int) =~= s@);
}

/// The Deployment manifest: one replica of the project's image, with the
/// configured resource limits and requests.
pub open spec fn deployment_manifest(name: Seq<char>, ns: Seq<char>, tag: Seq<char>, registry: Seq<char>, cpu_limit: Seq<char>, memory_limit: Seq<char>, cpu_request: Seq<char>, memory_request: Seq<char>) -> Seq<char> {
    "{\"apiVersion\":\"apps/v1\",\"kind\":\"Deployment\",\"metadata\":{\"name\":\""@
        + json_escape(name)
        + "\",\"namespace\":\""@
        + json_escape(ns)
        + "\",\"labels\":{\"app\":\""@
        + json_escape(name)
        + "\"}},\"spec\":{\"replicas\":1,\"selector\":{\"matchLabels\":{\"app\":\""@
        + json_escape(name)
        + "\"}},\"template\":{\"metadata\":{\"labels\":{\"app\":\""@
        + json_escape(name)
        + "\"}},\"spec\":{\"containers\":[{\"name\":\""@
        + json_escape(name)
        + "\",\"image\":\""@
        + json_escape(registry)
        + "/"@
        + json_escape(name)
        + ":"@
        + json_escape(tag)
        + "\",\"ports\":[{\"containerPort\":80}],\"resources\":{\"limits\":{\"cpu\":\""@
        + json_escape(cpu_limit)
        + "\",\"memory\":\""@
        + json_escape(memory_limit)
        + "\"},\"requests\":{\"cpu\":\""@
        + json_escape(cpu_request)
        + "\",\"memory\":\""@
        + json_escape(memory_request)
        + "\"}}}]}}}}"@
}

/// The Ingress manifest: routes the project's host to its service.
pub open spec fn ingress_manifest(name: Seq<char>, ns: Seq<char>) -> Seq<char> {
    "{\"apiVersion\":\"networking.k8s.io/v1beta1\",\"kind\":\"Ingress\",\"metadata\":{\"name\":\""@
        + json_escape(name)
        + "\",\"namespace\":\""@
        + json_escape(ns)
        + "\"},\"spec\":{\"rules\":[{\"host\":\""@
        + json_escape(name)
        + "\",\"http\":{\"paths\":[{\"path\":\"/\",\"backend\":{\"serviceName\":\""@
        + json_escape(name)
        + "\",\"servicePort\":80}}]}}]}}"@
}

/// The Service manifest: exposes the project's pods on port 80.
pub open spec fn service_manifest(name: Seq<char>, ns: Seq<char>) -> Seq<char> {
    "{\"apiVersion\":\"v1\",\"kind\":\"Service\",\"metadata\":{\"name\":\""@
        + json_escape(name)
        + "\",\"namespace\":\""@
        + json_escape(ns)
        + "\",\"labels\":{\"app\":\""@
        + json_escape(name)
        + "\"}},\"spec\":{\"selector\":{\"app\":\""@
        + json_escape(name)
        + "\"},\"ports\":[{\"port\":80,\"targetPort\":80}]}}"@
}

/// The manifest of a kind for a request under a configuration.
pub open spec fn manifest_of(kind: ResourceKind, req: &DeployRequest, cfg: &ClusterConfig) -> Seq<char> {
    match kind {
        ResourceKind::Deployment => deployment_manifest(req.name@, cfg.namespace@, req.tag@, cfg.registry@, cfg.cpu_limit@, cfg.memory_limit@, cfg.cpu_request@, cfg.memory_request@),
        ResourceKind::Ingress => ingress_manifest(req.name@, cfg.namespace@),
        ResourceKind::Service => service_manifest(req.name@, cfg.namespace@),
    }
}

pub fn render_deployment(req: &DeployRequest, cfg: &ClusterConfig) -> (r: String)
    ensures
        r@ == deployment_manifest(req.name@, cfg.namespace@, req.tag@, cfg.registry@, cfg.cpu_limit@, cfg.memory_limit@, cfg.cpu_request@, cfg.memory_request@),
{
    let mut s = String::new();
    s.append("{\"apiVersion\":\"apps/v1\",\"kind\":\"Deployment\",\"metadata\":{\"name\":\"");
    push_escaped(&mut s, req.name.as_str());
    s.append("\",\"namespace\":\"");
    push_escaped(&mut s, cfg.namespace.as_str());
    s.append("\",\"labels\":{\"app\":\"");
    push_escaped(&mut s, req.name.as_str());
    s.append("\"}},\"spec\":{\"replicas\":1,\"selector\":{\"matchLabels\":{\"app\":\"");
    push_escaped(&mut s, req.name.as_str());
    s.append("\"}},\"template\":{\"metadata\":{\"labels\":{\"app\":\"");
    push_escaped(&mut s, req.name.as_str());
    s.append("\"}},\"spec\":{\"containers\":[{\"name\":\"");
    push_escaped(&mut s, req.name.as_str());
    s.append("\",\"image\":\"");
    push_escaped(&mut s, cfg.registry.as_str());
    s.append("/");
    push_escaped(&mut s, req.name.as_str());
    s.append(":");
    push_escaped(&mut s, req.tag.as_str());
    s.append("\",\"ports\":[{\"containerPort\":80}],\"resources\":{\"limits\":{\"cpu\":\"");
    push_escaped(&mut s, cfg.cpu_limit.as_str());
    s.append("\",\"memory\":\"");
    push_escaped(&mut s, cfg.memory_limit.as_str());
    s.append("\"},\"requests\":{\"cpu\":\"");
    push_escaped(&mut s, cfg.cpu_request.as_str());
    s.append("\",\"memory\":\"");
    push_escaped(&mut s, cfg.memory_request.as_str());
    s.append("\"}}}]}}}}");
    s
}

pub fn render_ingress(req: &DeployRequest, cfg: &ClusterConfig) -> (r: String)
    ensures
        r@ == ingress_manifest(req.name@, cfg.namespace@),
{
    let mut s = String::new();
    s.append("{\"apiVersion\":\"networking.k8s.io/v1beta1\",\"kind\":\"Ingress\",\"metadata\":{\"name\":\"");
    push_escaped(&mut s, req.name.as_str());
    s.append("\",\"namespace\":\"");
    push_escaped(&mut s, cfg.namespace.as_str());
    s.append("\"},\"spec\":{\"rules\":[{\"host\":\"");
    push_escaped(&mut s, req.name.as_str());
    s.append("\",\"http\":{\"paths\":[{\"path\":\"/\",\"backend\":{\"serviceName\":\"");
    push_escaped(&mut s, req.name.as_str());
    s.append("\",\"servicePort\":80}}]}}]}}");
    s
}

pub fn render_service(req: &DeployRequest, cfg: &ClusterConfig) -> (r: String)
    ensures
        r@ == service_manifest(req.name@, cfg.namespace@),
{
    let mut s = String::new();
    s.append("{\"apiVersion\":\"v1\",\"kind\":\"Service\",\"metadata\":{\"name\":\"");
    push_escaped(&mut s, req.name.as_str());
    s.append("\",\"namespace\":\"");
    push_escaped(&mut s, cfg.namespace.as_str());
    s.append("\",\"labels\":{\"app\":\"");
    push_escaped(&mut s, req.name.as_str());
    s.append("\"}},\"spec\":{\"selector\":{\"app\":\"");
    push_escaped(&mut s, req.name.as_str());
    s.append("\"},\"ports\":[{\"port\":80,\"targetPort\":80}]}}");
    s
}

/// Renders the manifest of `kind`, fresh on every call.
pub fn render(kind: ResourceKind, req: &DeployRequest, cfg: &ClusterConfig) -> (r: String)
    ensures
        r@ == manifest_of(kind, req, cfg),
{
    match kind {
        ResourceKind::Deployment => render_deployment(req, cfg),
        ResourceKind::Ingress => render_ingress(req, cfg),
        ResourceKind::Service => render_service(req, cfg),
    }
}

} // verus!
