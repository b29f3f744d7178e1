use kube_deployer::client::{authorization_value, build_client, user_agent, CredentialError};
use kube_deployer::config::ClusterConfig;
use kube_deployer::engine::{Action, ApiCall, Event, Method, NetworkError, ReconcileEngine};
use kube_deployer::manifest::{push_escaped, render, render_deployment, render_ingress, render_service};
use kube_deployer::reply::{reply_for_outcome, reply_for_rejection};
use kube_deployer::request::{valid_resource_name, DeployRequest, RequestError};
use kube_deployer::urls::{deployment_url, ingress_url, item_url, serivce_url, ResourceKind};

const BASE: &str = "https://kubernetes";

fn config() -> ClusterConfig {
    ClusterConfig {
        api_url: BASE.to_string(),
        namespace: "demo".to_string(),
        registry: "registry.example.com".to_string(),
        cpu_limit: "500m".to_string(),
        memory_limit: "512Mi".to_string(),
        cpu_request: "100m".to_string(),
        memory_request: "128Mi".to_string(),
    }
}

fn request(name: &str, tag: &str, build_id: &str) -> DeployRequest {
    DeployRequest::from_fields(
        Some(name.to_string()),
        Some(tag.to_string()),
        Some(build_id.to_string()),
    )
    .unwrap()
}

fn next_call(engine: &ReconcileEngine) -> ApiCall {
    match engine.next_action() {
        Action::Issue(call) => call,
        Action::Finish(_) => panic!("reconcile ended early"),
    }
}

/// Answers every call with `answer(i)` and returns the calls made and the result.
fn drive(
    engine: &mut ReconcileEngine,
    answer: impl Fn(usize) -> Event,
) -> (Vec<ApiCall>, Result<(), NetworkError>) {
    let mut calls = Vec::new();
    loop {
        match engine.next_action() {
            Action::Issue(call) => {
                calls.push(call);
                engine.record(answer(calls.len() - 1));
            }
            Action::Finish(result) => return (calls, result),
        }
    }
}

#[test]
fn resource_names() {
    assert!(valid_resource_name("myapp"));
    assert!(valid_resource_name("my-app-2"));
    assert!(!valid_resource_name(""));
    assert!(!valid_resource_name("MyApp"));
    assert!(!valid_resource_name("my_app"));
    assert!(!valid_resource_name("my app"));
}

#[test]
fn missing_fields_are_rejected() {
    let s = |v: &str| Some(v.to_string());
    assert_eq!(
        DeployRequest::from_fields(None, s("v1"), s("1")).err(),
        Some(RequestError::MissingName)
    );
    assert_eq!(
        DeployRequest::from_fields(s("app"), None, s("1")).err(),
        Some(RequestError::MissingTag)
    );
    assert_eq!(
        DeployRequest::from_fields(s("app"), s("v1"), None).err(),
        Some(RequestError::MissingBuildId)
    );
    assert_eq!(
        DeployRequest::from_fields(s("App"), s("v1"), s("1")).err(),
        Some(RequestError::InvalidName)
    );
    let ok = DeployRequest::from_fields(s("app"), s("v1"), s("7")).unwrap();
    assert_eq!(ok.name, "app");
    assert_eq!(ok.tag, "v1");
    assert_eq!(ok.build_id, "7");
}

#[test]
fn rejection_is_a_client_error() {
    assert_eq!(reply_for_rejection(RequestError::MissingTag).status, 400);
    assert_eq!(reply_for_rejection(RequestError::InvalidName).status, 400);
}

#[test]
fn collection_urls() {
    assert_eq!(
        deployment_url(BASE, "demo"),
        "https://kubernetes/apis/apps/v1/namespaces/demo/deployments"
    );
    assert_eq!(
        ingress_url(BASE, "demo"),
        "https://kubernetes/apis/networking.k8s.io/v1beta1/namespaces/demo/ingresses"
    );
    assert_eq!(serivce_url(BASE, "demo"), "https://kubernetes/api/v1/namespaces/demo/services");
    assert_eq!(item_url("https://k/x", "myapp"), "https://k/x/myapp");
    assert_eq!(
        ResourceKind::Ingress.collection_url(BASE, "demo"),
        ingress_url(BASE, "demo")
    );
}

#[test]
fn escaping_for_json() {
    let mut out = String::from("[");
    push_escaped(&mut out, "a\"b\\c\nd\u{1f}é");
    assert_eq!(out, "[a\\\"b\\\\c\\u000ad\\u001fé");
}

#[test]
fn deployment_manifest_for_myapp() {
    let req = request("myapp", "v1.2.3", "42");
    let body = render_deployment(&req, &config());
    assert!(body.contains("\"image\":\"registry.example.com/myapp:v1.2.3\""));
    assert!(body.contains("\"namespace\":\"demo\""));
    assert!(body.contains("\"kind\":\"Deployment\""));
    assert!(body.contains("\"limits\":{\"cpu\":\"500m\",\"memory\":\"512Mi\"}"));
    assert!(body.contains("\"requests\":{\"cpu\":\"100m\",\"memory\":\"128Mi\"}"));
    assert!(!body.contains("42"));
}

#[test]
fn ingress_and_service_manifests() {
    let req = request("myapp", "v1.2.3", "42");
    assert_eq!(
        render_ingress(&req, &config()),
        "{\"apiVersion\":\"networking.k8s.io/v1beta1\",\"kind\":\"Ingress\",\"metadata\":{\"name\":\"myapp\",\"namespace\":\"demo\"},\"spec\":{\"rules\":[{\"host\":\"myapp\",\"http\":{\"paths\":[{\"path\":\"/\",\"backend\":{\"serviceName\":\"myapp\",\"servicePort\":80}}]}}]}}"
    );
    assert_eq!(
        render_service(&req, &config()),
        "{\"apiVersion\":\"v1\",\"kind\":\"Service\",\"metadata\":{\"name\":\"myapp\",\"namespace\":\"demo\",\"labels\":{\"app\":\"myapp\"}},\"spec\":{\"selector\":{\"app\":\"myapp\"},\"ports\":[{\"port\":80,\"targetPort\":80}]}}"
    );
}

#[test]
fn manifests_are_deterministic() {
    let a = request("myapp", "v1.2.3", "42");
    let b = request("myapp", "v1.2.3", "43");
    for kind in [ResourceKind::Deployment, ResourceKind::Ingress, ResourceKind::Service] {
        assert_eq!(render(kind, &a, &config()), render(kind, &a, &config()));
        assert_eq!(render(kind, &a, &config()), render(kind, &b, &config()));
    }
    let c = request("myapp", "v1.2.4", "42");
    assert_ne!(render_deployment(&a, &config()), render_deployment(&c, &config()));
}

#[test]
fn first_calls_for_myapp() {
    let mut engine = ReconcileEngine::new(request("myapp", "v1.2.3", "42"), config());
    let delete = next_call(&engine);
    assert_eq!(delete.method, Method::Delete);
    assert_eq!(delete.kind, ResourceKind::Deployment);
    assert_eq!(delete.url, "https://kubernetes/apis/apps/v1/namespaces/demo/deployments/myapp");
    assert!(delete.body.is_none());
    engine.record(Event::Status(404));
    let create = next_call(&engine);
    assert_eq!(create.method, Method::Post);
    assert_eq!(create.url, "https://kubernetes/apis/apps/v1/namespaces/demo/deployments");
    let body = create.body.unwrap();
    assert!(body.contains("registry.example.com/myapp:v1.2.3"));
    assert!(body.contains("\"namespace\":\"demo\""));
}

#[test]
fn six_calls_in_fixed_order() {
    let mut engine = ReconcileEngine::new(request("myapp", "v1", "1"), config());
    let (calls, result) = drive(&mut engine, |_| Event::Status(200));
    assert_eq!(result, Ok(()));
    let kinds: Vec<(ResourceKind, Method)> = calls.iter().map(|c| (c.kind, c.method)).collect();
    assert_eq!(
        kinds,
        vec![
            (ResourceKind::Deployment, Method::Delete),
            (ResourceKind::Deployment, Method::Post),
            (ResourceKind::Ingress, Method::Delete),
            (ResourceKind::Ingress, Method::Post),
            (ResourceKind::Service, Method::Delete),
            (ResourceKind::Service, Method::Post),
        ]
    );
    assert_eq!(calls[5].url, "https://kubernetes/api/v1/namespaces/demo/services");
    assert_eq!(calls[4].url, "https://kubernetes/api/v1/namespaces/demo/services/myapp");
    assert!(engine.is_finished());
    assert_eq!(engine.events().len(), 6);
}

#[test]
fn error_statuses_still_answer_ok() {
    let mut engine = ReconcileEngine::new(request("myapp", "v1", "1"), config());
    let codes = [404u16, 422, 500, 403, 409, 503];
    let (calls, result) = drive(&mut engine, |i| Event::Status(codes[i]));
    assert_eq!(calls.len(), 6);
    assert_eq!(result, Ok(()));
    let reply = reply_for_outcome(result);
    assert_eq!(reply.status, 200);
    assert_eq!(reply.body, "{\"status\":\"ok\"}");
    assert_eq!(engine.events()[1], Event::Status(422));
}

#[test]
fn transport_failure_stops_and_fails() {
    let mut engine = ReconcileEngine::new(request("myapp", "v1", "1"), config());
    let (calls, result) = drive(&mut engine, |i| {
        if i == 2 {
            Event::TransportFailure
        } else {
            Event::Status(200)
        }
    });
    assert_eq!(calls.len(), 3);
    assert_eq!(
        result,
        Err(NetworkError { kind: ResourceKind::Ingress, method: Method::Delete })
    );
    let reply = reply_for_outcome(result);
    assert!(!(200..300).contains(&reply.status));
    assert_eq!(reply.status, 502);
    assert_eq!(reply.body, "cluster API unreachable while deleting the ingress");
}

#[test]
fn transport_failure_on_last_create() {
    let mut engine = ReconcileEngine::new(request("myapp", "v1", "1"), config());
    let (calls, result) = drive(&mut engine, |i| {
        if i == 5 {
            Event::TransportFailure
        } else {
            Event::Status(201)
        }
    });
    assert_eq!(calls.len(), 6);
    assert_eq!(
        result,
        Err(NetworkError { kind: ResourceKind::Service, method: Method::Post })
    );
}

#[test]
fn bearer_authorization() {
    assert_eq!(authorization_value("abc.def"), "Bearer abc.def");
    assert_eq!(authorization_value(""), "Bearer ");
    assert_eq!(user_agent(), "polkahub-deployer");
}

#[test]
fn token_that_no_header_can_hold() {
    assert_eq!(build_client("", "a\nb").err(), Some(CredentialError::InvalidToken));
    assert_eq!(build_client("", "a\u{7f}").err(), Some(CredentialError::InvalidToken));
    assert_ne!(build_client("", "a\tb").err(), Some(CredentialError::InvalidToken));
}
