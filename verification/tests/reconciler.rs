use k8s_openapi::api::apps::v1::DeploymentSpec;
use tsproxy_operator::action::{Action, Event, Finalized};
use tsproxy_operator::deployment::{Deployment, ReplicaSpec};
use tsproxy_operator::endpoints::{
    EndpointAddress, EndpointSubset, Endpoints, ObjectReference,
};
use tsproxy_operator::error::{error_policy, Error, Requeue};
use tsproxy_operator::meta::{ObjectMeta, OwnerReference};
use tsproxy_operator::reconciler::reconcile_replaced_service;
use tsproxy_operator::replaced_service::{
    ReplacedService, ReplacedServiceResourceStatus, ReplacedServiceSpec, ServicePortMapping,
};
use tsproxy_operator::service::{
    create_copy_of_original_service, IntOrString, Service, ServicePort, ServiceSpec,
};
use tsproxy_operator::step::Progress;

fn owner(name: &str, uid: &str) -> OwnerReference {
    OwnerReference {
        api_version: "v1".to_string(),
        block_owner_deletion: None,
        controller: Some(true),
        kind: "Some".to_string(),
        name: name.to_string(),
        uid: uid.to_string(),
    }
}

fn meta(name: &str) -> ObjectMeta {
    let mut meta = ObjectMeta::empty();
    meta.name = Some(name.to_string());
    meta.namespace = Some("prod".to_string());
    meta
}

fn resource() -> ReplacedService {
    let mut metadata = meta("web-replacement");
    metadata.uid = Some("uid-1".to_string());
    ReplacedService {
        metadata,
        spec: ReplacedServiceSpec {
            service_to_replace: "web".to_string(),
            ports: vec![ServicePortMapping { original_port: Some(80), proxy_port: 8080 }],
            node_selector: None,
            health_endpoint: Some("/health".to_string()),
            health_test_protocol: None,
            ignore_certificate_errors: Some(true),
            tailscale_host_name: "host".to_string(),
            tailscale_tags: vec!["tag:proxy".to_string()],
            service_account: "account".to_string(),
            proxy_state_secret_name: "state".to_string(),
        },
        status: None,
    }
}

fn recorded() -> ReplacedService {
    let mut resource = resource();
    resource.status = Some(ReplacedServiceResourceStatus {
        active: None,
        tailscale_hostname: None,
        replaced_deployment: Some("web-deployment".to_string()),
        warning: Some("old".to_string()),
    });
    resource
}

fn deleted() -> ReplacedService {
    let mut resource = recorded();
    let time = k8s_openapi::chrono::DateTime::from_timestamp(0, 0).unwrap();
    resource.metadata.deletion_timestamp =
        Some(k8s_openapi::apimachinery::pkg::apis::meta::v1::Time(time));
    resource
}

fn service(name: &str) -> Service {
    let mut spec = ServiceSpec::empty();
    spec.cluster_ip = Some("10.0.0.1".to_string());
    spec.ports = Some(vec![ServicePort {
        app_protocol: None,
        name: None,
        node_port: None,
        port: 80,
        protocol: None,
        target_port: Some(IntOrString::Int(80)),
    }]);
    Service { metadata: meta(name), spec: Some(spec), status: None }
}

fn replaced() -> Service {
    let mut service = service("web");
    service.metadata.owner_references = Some(vec![owner("web-replacement", "uid-1")]);
    service
}

fn deployment(name: &str, replicas: i32) -> Deployment {
    Deployment {
        metadata: meta(name),
        spec: Some(ReplicaSpec { replicas: Some(replicas), rest: DeploymentSpec::default() }),
        status: None,
    }
}

fn proxy_deployment() -> Deployment {
    let mut deployment = deployment("tailscale-outbound-proxy", 1);
    deployment.metadata.owner_references = Some(vec![owner("web-replacement", "uid-1")]);
    deployment
}

fn endpoints(kind: Option<&str>, name: Option<&str>) -> Endpoints {
    Endpoints {
        subsets: Some(vec![EndpointSubset {
            addresses: Some(vec![EndpointAddress {
                target_ref: Some(ObjectReference {
                    kind: kind.map(|kind| kind.to_string()),
                    name: name.map(|name| name.to_string()),
                }),
            }]),
        }]),
    }
}

fn failed() -> Event {
    Event::Failed(Error("lost".to_string()))
}

fn advance(progress: Progress, event: Event) -> Progress {
    match progress {
        Progress::Pending(reconciler, _) => {
            assert!(reconciler.accepts(&event), "{:?} does not accept {:?}", reconciler, event);
            reconciler.run_reconciliation(event)
        }
        finished => panic!("ended with {:?}", finished),
    }
}

fn refuses(progress: &Progress, event: &Event) -> bool {
    match progress {
        Progress::Pending(reconciler, _) => !reconciler.accepts(event),
        finished => panic!("ended with {:?}", finished),
    }
}

fn run(events: Vec<Event>) -> Progress {
    let mut progress = reconcile_replaced_service(&resource().metadata);
    for event in events {
        progress = advance(progress, event);
    }
    progress
}

fn action(progress: &Progress) -> &Action {
    match progress {
        Progress::Pending(_, action) => action,
        finished => panic!("ended with {:?}", finished),
    }
}

fn shows(progress: &Progress, expected: &str) {
    let shown = format!("{:?}", action(progress));
    assert!(shown.starts_with(expected), "{} does not start with {}", shown, expected);
}

fn patched(progress: &Progress) -> &ReplacedServiceResourceStatus {
    match action(progress) {
        Action::PatchStatus { namespace, name, resource } => {
            assert_eq!(namespace, "prod");
            assert_eq!(name, "web-replacement");
            resource.status.as_ref().unwrap()
        }
        other => panic!("unexpected {:?}", other),
    }
}

fn applied(progress: &Progress) -> &Service {
    match action(progress) {
        Action::ApplyService { namespace, name, service } => {
            assert_eq!(namespace, "prod");
            assert_eq!(Some(name), service.metadata.name.as_ref());
            service
        }
        other => panic!("unexpected {:?}", other),
    }
}

fn scaled(progress: &Progress) -> (&str, Option<i32>) {
    match action(progress) {
        Action::ApplyDeployment { namespace, name, deployment } => {
            assert_eq!(namespace, "prod");
            (name, deployment.spec.as_ref().unwrap().replicas)
        }
        other => panic!("unexpected {:?}", other),
    }
}

fn ends_warned(progress: Progress, message: &str) {
    shows(&progress, "GetResource { namespace: \"prod\", name: \"web-replacement\" }");
    let progress = advance(progress, Event::ResourceFound(Some(resource())));
    assert_eq!(patched(&progress).warning, Some(message.to_string()));
    let progress = advance(progress, Event::Done);
    ends_with(progress, false, Ok(Requeue::After(30)));
}

fn ends_with(progress: Progress, active: bool, expected: Result<Requeue, &str>) {
    shows(&progress, "GetResource { namespace: \"prod\", name: \"web-replacement\" }");
    let progress = advance(progress, Event::ResourceFound(Some(recorded())));
    let status = patched(&progress);
    assert_eq!(status.active, Some(active));
    assert_eq!(status.replaced_deployment, Some("web-deployment".to_string()));
    match (advance(progress, Event::Done), expected) {
        (Progress::Finished(Ok(requeue)), Ok(expected)) => assert_eq!(requeue, expected),
        (Progress::Finished(Err(error)), Err(expected)) => assert_eq!(error.0, expected),
        (other, _) => panic!("unexpected {:?}", other),
    }
}

fn until_original() -> Vec<Event> {
    vec![
        Event::ResourceFound(Some(recorded())),
        Event::ResourceEnsured(recorded()),
        Event::SecretFound(true),
        Event::DeploymentFound(Some(proxy_deployment())),
    ]
}

fn from_original(event: Event) -> Progress {
    let mut events = until_original();
    events.push(event);
    run(events)
}

#[test]
fn errors_come_back_after_fifteen_seconds() {
    assert_eq!(error_policy(&Error("lost".to_string())), Requeue::After(15));
}

#[test]
fn resource_without_a_namespace() {
    let mut meta = resource().metadata;
    meta.namespace = None;
    match reconcile_replaced_service(&meta) {
        Progress::Finished(Err(error)) => assert_eq!(
            error.0,
            "Expected SftpgoUser resource to be namespaced. Can't deploy to unknown namespace."
        ),
        other => panic!("unexpected {:?}", other),
    }
}

#[test]
fn resource_that_is_gone() {
    let progress = run(Vec::new());
    shows(&progress, "GetResource { namespace: \"prod\", name: \"web-replacement\" }");
    let progress = advance(progress, Event::ResourceFound(None));
    ends_with(progress, false, Ok(Requeue::AwaitChange));
    match run(vec![Event::ResourceFound(None), Event::ResourceFound(None)]) {
        Progress::Finished(Ok(requeue)) => assert_eq!(requeue, Requeue::AwaitChange),
        other => panic!("unexpected {:?}", other),
    }
}

#[test]
fn resource_without_a_uid() {
    let mut unborn = resource();
    unborn.metadata.uid = None;
    let progress = run(vec![
        Event::ResourceFound(Some(resource())),
        Event::ResourceEnsured(unborn),
    ]);
    ends_with(progress, false, Err("Resource does not have a uid assigned"));
}

#[test]
fn removal_restores_the_service() {
    let progress = run(vec![Event::ResourceFound(Some(deleted()))]);
    shows(&progress, "GetService { namespace: \"prod\", name: \"web-proxy-backup\" }");
    let backup = || service("web-proxy-backup");
    let progress = advance(progress, Event::ServiceFound(Some(backup())));
    assert_eq!(
        format!("{:?}", applied(&progress)),
        format!("{:?}", create_copy_of_original_service("web".to_string(), backup()))
    );
    let progress = advance(progress, Event::ServiceApplied(service("web")));
    match action(&progress) {
        Action::RemoveFinalizer { kind, namespace, name } => {
            assert_eq!(*kind, Finalized::Service);
            assert_eq!(namespace, "prod");
            assert_eq!(name, "web-proxy-backup");
        }
        other => panic!("unexpected {:?}", other),
    }
    let progress = advance(progress, Event::Done);
    shows(&progress, "DeleteService { namespace: \"prod\", name: \"web-proxy-backup\" }");
    let progress = advance(progress, Event::Done);
    shows(&progress, "GetDeployment { namespace: \"prod\", name: \"web-deployment\" }");
    let progress = advance(progress, Event::DeploymentFound(Some(deployment("web-deployment", 0))));
    assert_eq!(scaled(&progress), ("web-deployment", Some(1)));
    let progress = advance(progress, Event::Done);
    match action(&progress) {
        Action::RemoveFinalizer { kind, namespace, name } => {
            assert_eq!(*kind, Finalized::ReplacedService);
            assert_eq!(namespace, "prod");
            assert_eq!(name, "web-replacement");
        }
        other => panic!("unexpected {:?}", other),
    }
    let progress = advance(progress, Event::Done);
    ends_with(progress, false, Ok(Requeue::AwaitChange));
}

#[test]
fn removal_without_a_backup_or_a_deployment() {
    let mut unrecorded = deleted();
    unrecorded.status = None;
    let progress = run(vec![
        Event::ResourceFound(Some(unrecorded)),
        Event::ServiceFound(None),
    ]);
    shows(&progress, "RemoveFinalizer { kind: ReplacedService");
    let progress = run(vec![
        Event::ResourceFound(Some(deleted())),
        Event::ServiceFound(None),
        Event::DeploymentFound(None),
    ]);
    shows(&progress, "RemoveFinalizer { kind: ReplacedService");
}

#[test]
fn deployment_is_found_behind_the_service() {
    let progress = run(vec![Event::ResourceFound(Some(resource()))]);
    shows(&progress, "EnsureFinalizer { resource: ReplacedService");
    let progress = advance(progress, Event::ResourceEnsured(resource()));
    shows(&progress, "FetchEndpoints { namespace: \"prod\", name: \"web\" }");
    let progress = advance(
        progress,
        Event::EndpointsFetched(endpoints(Some("Pod"), Some("web-1"))),
    );
    shows(&progress, "FetchPod { namespace: \"prod\", name: \"web-1\" }");
    let mut pod = meta("web-1");
    pod.owner_references = Some(vec![owner("web-set", "u2"), owner("other", "u3")]);
    let progress = advance(progress, Event::MetadataFetched(pod));
    shows(&progress, "FetchReplicaSet { namespace: \"prod\", name: \"web-set\" }");
    let mut set = meta("web-set");
    set.owner_references = Some(vec![owner("web-deployment", "u4")]);
    let progress = advance(progress, Event::MetadataFetched(set));
    shows(&progress, "FetchDeployment { namespace: \"prod\", name: \"web-deployment\" }");
    let progress = advance(progress, Event::MetadataFetched(meta("web-deployment")));
    assert_eq!(
        patched(&progress).replaced_deployment,
        Some("web-deployment".to_string())
    );
    let progress = advance(progress, Event::Done);
    shows(&progress, "GetSecret { namespace: \"prod\", name: \"state\" }");
}

#[test]
fn searches_that_end_with_a_warning() {
    let ensured = || vec![
        Event::ResourceFound(Some(resource())),
        Event::ResourceEnsured(resource()),
    ];
    let after = |more: Vec<Event>| {
        let mut events = ensured();
        events.extend(more);
        run(events)
    };
    ends_warned(
        after(vec![Event::EndpointsFetched(Endpoints { subsets: None })]),
        "Service has no endpoints defined",
    );
    ends_warned(
        after(vec![Event::EndpointsFetched(endpoints(Some("Node"), None))]),
        "Service does not point to a pod. Got Node instead",
    );
    ends_warned(
        after(vec![Event::EndpointsFetched(endpoints(None, None))]),
        "Service does not point to a pod. Got  instead",
    );
    let pod = || Event::EndpointsFetched(endpoints(Some("Pod"), Some("web-1")));
    ends_warned(
        after(vec![pod(), Event::MetadataFetched(meta("web-1"))]),
        "Pod web-1 does not have an owner reference",
    );
    let mut owned = meta("web-1");
    owned.owner_references = Some(vec![owner("web-set", "u2")]);
    ends_warned(
        after(vec![
            pod(),
            Event::MetadataFetched(owned),
            Event::MetadataFetched(meta("web-set")),
        ]),
        "Replica set web-set does not have an owner reference",
    );
}

#[test]
fn missing_secret_gets_an_auth_key() {
    let progress = run(vec![
        Event::ResourceFound(Some(recorded())),
        Event::ResourceEnsured(recorded()),
        Event::SecretFound(false),
    ]);
    match action(&progress) {
        Action::CreateAuthToken { tags } => assert_eq!(tags, &vec!["tag:proxy".to_string()]),
        other => panic!("unexpected {:?}", other),
    }
    let progress = advance(progress, Event::AuthKeyCreated("tskey-1".to_string()));
    match action(&progress) {
        Action::ApplySecret { namespace, name, secret } => {
            assert_eq!(namespace, "prod");
            assert_eq!(name, "state");
            assert!(secret.metadata.owned_by(&"uid-1".to_string()));
            assert_eq!(
                secret.string_data.clone().unwrap().into_entries(),
                vec![("TS_AUTHKEY".to_string(), "tskey-1".to_string())]
            );
        }
        other => panic!("unexpected {:?}", other),
    }
    let progress = advance(progress, Event::Done);
    shows(&progress, "GetDeployment { namespace: \"prod\", name: \"tailscale-outbound-proxy\" }");
}

#[test]
fn proxy_is_created_or_shared() {
    let start = || run(vec![
        Event::ResourceFound(Some(recorded())),
        Event::ResourceEnsured(recorded()),
        Event::SecretFound(true),
    ]);
    let progress = advance(start(), Event::DeploymentFound(None));
    match action(&progress) {
        Action::CreateProxyDeployment { namespace, name, proxy } => {
            assert_eq!(namespace, "prod");
            assert_eq!(name, "tailscale-outbound-proxy");
            assert_eq!(proxy.metadata.name, Some("tailscale-outbound-proxy".to_string()));
        }
        other => panic!("unexpected {:?}", other),
    }
    shows(
        &advance(progress, Event::Done),
        "GetService { namespace: \"prod\", name: \"web\" }",
    );
    let mut foreign = deployment("tailscale-outbound-proxy", 1);
    foreign.metadata.owner_references = Some(vec![owner("other", "uid-2")]);
    let progress = advance(start(), Event::DeploymentFound(Some(foreign)));
    match action(&progress) {
        Action::ApplyDeployment { deployment, .. } => {
            assert!(deployment.metadata.owned_by(&"uid-1".to_string()));
            assert!(deployment.metadata.owned_by(&"uid-2".to_string()));
        }
        other => panic!("unexpected {:?}", other),
    }
    let progress = advance(start(), Event::DeploymentFound(Some(proxy_deployment())));
    shows(&progress, "GetService { namespace: \"prod\", name: \"web\" }");
}

#[test]
fn missing_service_is_reported() {
    ends_warned(from_original(Event::ServiceFound(None)), "Service web was not found");
}

#[test]
fn service_is_replaced() {
    let progress = from_original(Event::ServiceFound(Some(service("web"))));
    let backup = applied(&progress);
    assert_eq!(backup.metadata.name, Some("web-proxy-backup".to_string()));
    assert_eq!(backup.spec.as_ref().unwrap().cluster_ip, None);
    let progress = advance(progress, Event::ServiceApplied(service("web-proxy-backup")));
    let test = applied(&progress);
    assert_eq!(test.metadata.name, Some("web-proxy".to_string()));
    assert!(test.metadata.owned_by(&"uid-1".to_string()));
    let ports = test.spec.as_ref().unwrap().ports.as_ref().unwrap();
    assert_eq!(ports.len(), 1);
    assert_eq!(ports[0].port, 80);
    assert_eq!(ports[0].target_port, Some(IntOrString::Int(8080)));
    let mut accepted = service("web-proxy");
    accepted.spec.as_mut().unwrap().ports.as_mut().unwrap()[0].protocol = Some("TCP".to_string());
    let progress = advance(progress, Event::ServiceApplied(accepted));
    match action(&progress) {
        Action::TestUrl { url, ignore_certificate_errors } => {
            assert_eq!(url, "http://web-proxy.prod.svc.cluster.local:8080/health");
            assert!(*ignore_certificate_errors);
        }
        other => panic!("unexpected {:?}", other),
    }
    let progress = advance(progress, Event::Answered(204));
    let switched = applied(&progress);
    assert_eq!(switched.metadata.name, Some("web".to_string()));
    assert!(switched.metadata.owned_by(&"uid-1".to_string()));
    let ports = switched.spec.as_ref().unwrap().ports.as_ref().unwrap();
    assert_eq!(ports[0].protocol, Some("TCP".to_string()));
    let progress = advance(progress, Event::ServiceApplied(replaced()));
    shows(&progress, "GetDeployment { namespace: \"prod\", name: \"web-deployment\" }");
    let progress = advance(progress, Event::DeploymentFound(Some(deployment("web-deployment", 3))));
    assert_eq!(scaled(&progress), ("web-deployment", Some(0)));
    let progress = advance(progress, Event::Done);
    let progress = advance(progress, Event::ResourceFound(Some(recorded())));
    assert_eq!(patched(&progress).warning, None);
    let progress = advance(progress, Event::Done);
    ends_with(progress, true, Ok(Requeue::After(30)));
}

#[test]
fn service_without_ports_is_backed_up_and_reported() {
    let mut silent = service("web");
    silent.spec.as_mut().unwrap().ports = None;
    let progress = from_original(Event::ServiceFound(Some(silent)));
    assert_eq!(applied(&progress).metadata.name, Some("web-proxy-backup".to_string()));
    let progress = advance(progress, Event::ServiceApplied(service("web-proxy-backup")));
    ends_warned(progress, "Service has no ports defined");
}

#[test]
fn unmapped_port_is_reported() {
    let mut double = service("web");
    let ports = double.spec.as_mut().unwrap().ports.as_mut().unwrap();
    ports.push(ServicePort {
        app_protocol: None,
        name: None,
        node_port: None,
        port: 443,
        protocol: None,
        target_port: None,
    });
    let progress = from_original(Event::ServiceFound(Some(double)));
    let progress = advance(progress, Event::ServiceApplied(service("web-proxy-backup")));
    ends_warned(
        progress,
        "Service has multiple ports, missing proxy port defined for 443",
    );
}

#[test]
fn broken_proxy_leaves_the_service_as_is() {
    let start = || {
        let progress = from_original(Event::ServiceFound(Some(service("web"))));
        let progress = advance(progress, Event::ServiceApplied(service("web-proxy-backup")));
        advance(progress, Event::ServiceApplied(service("web-proxy")))
    };
    ends_warned(
        advance(start(), Event::Answered(500)),
        "Proxy service does not work, leaving service pointer as is: Proxied service did respond, but the result was not a success",
    );
    ends_warned(
        advance(start(), Event::Unanswered("timed out".to_string())),
        "Proxy service does not work, leaving service pointer as is: Failed to test proxy service: timed out",
    );
}

#[test]
fn working_proxy_is_left_as_it_is() {
    let progress = from_original(Event::ServiceFound(Some(replaced())));
    shows(&progress, "TestUrl");
    let progress = advance(progress, Event::Answered(200));
    shows(&progress, "GetResource");
    let progress = advance(progress, Event::ResourceFound(Some(resource())));
    ends_with(progress, true, Ok(Requeue::After(30)));
}

#[test]
fn every_listed_port_is_tested() {
    let mut double = recorded();
    double.spec.ports.push(ServicePortMapping { original_port: None, proxy_port: 9090 });
    let progress = run(vec![
        Event::ResourceFound(Some(recorded())),
        Event::ResourceEnsured(double),
        Event::SecretFound(true),
        Event::DeploymentFound(Some(proxy_deployment())),
        Event::ServiceFound(Some(replaced())),
    ]);
    shows(&progress, "TestUrl { url: \"http://web-proxy.prod.svc.cluster.local:8080/health\"");
    let progress = advance(progress, Event::Answered(200));
    shows(&progress, "TestUrl { url: \"http://web-proxy.prod.svc.cluster.local:9090/health\"");
    let progress = advance(progress, Event::Answered(200));
    shows(&progress, "GetResource");
}

#[test]
fn replacement_without_ports_needs_no_test() {
    let mut portless = recorded();
    portless.spec.ports = Vec::new();
    let progress = run(vec![
        Event::ResourceFound(Some(recorded())),
        Event::ResourceEnsured(portless),
        Event::SecretFound(true),
        Event::DeploymentFound(Some(proxy_deployment())),
        Event::ServiceFound(Some(replaced())),
        Event::ResourceFound(None),
    ]);
    ends_with(progress, true, Ok(Requeue::After(30)));
}

#[test]
fn broken_proxy_gives_the_service_back() {
    let progress = from_original(Event::ServiceFound(Some(replaced())));
    let progress = advance(progress, Event::Unanswered("timed out".to_string()));
    shows(&progress, "GetDeployment { namespace: \"prod\", name: \"web-deployment\" }");
    let progress = advance(progress, Event::DeploymentFound(Some(deployment("web-deployment", 0))));
    assert_eq!(scaled(&progress), ("web-deployment", Some(1)));
    let progress = advance(progress, Event::Done);
    shows(&progress, "FetchService { namespace: \"prod\", name: \"web-proxy-backup\" }");
    let progress = advance(progress, Event::ServiceFetched(service("web-proxy-backup")));
    assert_eq!(applied(&progress).metadata.name, Some("web".to_string()));
    let progress = advance(progress, Event::ServiceApplied(service("web")));
    ends_warned(
        progress,
        "Proxy service does not work, returning original service pointer: Failed to test proxy service: timed out",
    );
}

#[test]
fn service_is_given_back_though_the_deployment_is_gone() {
    let progress = from_original(Event::ServiceFound(Some(replaced())));
    let progress = advance(progress, Event::Answered(302));
    let progress = advance(progress, Event::DeploymentFound(None));
    shows(&progress, "FetchService { namespace: \"prod\", name: \"web-proxy-backup\" }");
}

#[test]
fn failed_action_is_reported() {
    ends_with(run(vec![failed()]), false, Err("lost"));
    let mut events = until_original();
    events.push(failed());
    ends_with(run(events), false, Err("lost"));
}

#[test]
fn failure_while_settling_is_reported() {
    let progress = run(vec![Event::ResourceFound(None), failed()]);
    assert!(matches!(progress, Progress::Finished(Err(error)) if error.0 == "lost"));
    let progress = run(vec![
        Event::ResourceFound(None),
        Event::ResourceFound(Some(resource())),
        failed(),
    ]);
    assert!(matches!(progress, Progress::Finished(Err(error)) if error.0 == "lost"));
    let progress = run(vec![failed(), Event::Failed(Error("twice".to_string()))]);
    assert!(matches!(progress, Progress::Finished(Err(error)) if error.0 == "twice"));
}

#[test]
fn warning_on_a_resource_that_is_gone() {
    let progress = from_original(Event::ServiceFound(None));
    let progress = advance(progress, Event::ResourceFound(None));
    ends_with(progress, false, Ok(Requeue::After(30)));
}

#[test]
fn events_that_cannot_be_followed_up() {
    let mut homeless = service("web");
    homeless.metadata.namespace = None;
    let start = || run(until_original());
    assert!(refuses(&start(), &Event::ServiceFound(Some(homeless))));
    let mut nameless = resource();
    nameless.metadata.name = None;
    let progress = run(vec![Event::ResourceFound(Some(resource()))]);
    assert!(!refuses(&progress, &Event::ResourceEnsured(nameless)));
    let mut unnamed = recorded();
    unnamed.metadata.name = None;
    assert!(refuses(&progress, &Event::ResourceEnsured(unnamed)));
    let progress = advance(progress, Event::ResourceEnsured(resource()));
    assert!(refuses(&progress, &Event::EndpointsFetched(endpoints(Some("Pod"), None))));
    assert!(refuses(&progress, &Event::Done));
    let progress = advance(start(), Event::ServiceFound(Some(replaced())));
    assert!(refuses(&progress, &failed()));
}

fn longest_run() -> Vec<Event> {
    let mut pod = meta("web-1");
    pod.owner_references = Some(vec![owner("web-set", "u2")]);
    let mut set = meta("web-set");
    set.owner_references = Some(vec![owner("web-deployment", "u4")]);
    vec![
        Event::ResourceFound(Some(resource())),
        Event::ResourceEnsured(resource()),
        Event::EndpointsFetched(endpoints(Some("Pod"), Some("web-1"))),
        Event::MetadataFetched(pod),
        Event::MetadataFetched(set),
        Event::MetadataFetched(meta("web-deployment")),
        Event::Done,
        Event::SecretFound(false),
        Event::AuthKeyCreated("tskey-1".to_string()),
        Event::Done,
        Event::DeploymentFound(None),
        Event::Done,
        Event::ServiceFound(Some(service("web"))),
        Event::ServiceApplied(service("web-proxy-backup")),
        Event::ServiceApplied(service("web-proxy")),
        Event::Answered(200),
        Event::ServiceApplied(replaced()),
        Event::DeploymentFound(Some(deployment("web-deployment", 1))),
        Event::Done,
        Event::ResourceFound(Some(recorded())),
        Event::Done,
        Event::ResourceFound(Some(recorded())),
        Event::Done,
    ]
}

#[test]
fn longest_run_takes_twenty_three_events() {
    let events = longest_run();
    assert_eq!(events.len(), 23);
    match run(events) {
        Progress::Finished(Ok(requeue)) => assert_eq!(requeue, Requeue::After(30)),
        other => panic!("unexpected {:?}", other),
    }
}

#[test]
fn actions_stay_in_the_namespace() {
    let mut progress = reconcile_replaced_service(&resource().metadata);
    for event in longest_run() {
        let shown = format!("{:?}", action(&progress));
        let elsewhere = matches!(
            action(&progress),
            Action::EnsureFinalizer { .. } | Action::CreateAuthToken { .. } | Action::TestUrl { .. }
        );
        assert!(elsewhere || shown.contains("{ namespace: \"prod\", name: "), "{}", shown);
        progress = advance(progress, event);
    }
    assert!(matches!(progress, Progress::Finished(Ok(_))));
}

#[test]
fn finalizer_removal_names_its_namespace() {
    let mut unrecorded = deleted();
    unrecorded.status = None;
    let progress = run(vec![Event::ResourceFound(Some(unrecorded)), Event::ServiceFound(None)]);
    shows(
        &progress,
        "RemoveFinalizer { kind: ReplacedService, namespace: \"prod\", name: \"web-replacement\" }",
    );
}

#[test]
fn first_read_names_the_service() {
    let shop = |resource: ReplacedService| {
        let mut resource = resource;
        resource.spec.service_to_replace = "shop".to_string();
        resource.spec.health_endpoint = Some("/live".to_string());
        resource
    };
    let ensured = |resource: ReplacedService| {
        run(vec![
            Event::ResourceFound(Some(recorded())),
            Event::ResourceEnsured(resource),
        ])
    };
    let progress = ensured(shop(resource()));
    shows(&progress, "FetchEndpoints { namespace: \"prod\", name: \"shop\" }");
    let start = || {
        let progress = advance(ensured(shop(recorded())), Event::SecretFound(true));
        advance(progress, Event::DeploymentFound(Some(proxy_deployment())))
    };
    shows(&start(), "GetService { namespace: \"prod\", name: \"web\" }");
    ends_warned(advance(start(), Event::ServiceFound(None)), "Service web was not found");
    let progress = advance(start(), Event::ServiceFound(Some(service("web"))));
    assert_eq!(applied(&progress).metadata.name, Some("web-proxy-backup".to_string()));
    let progress = advance(progress, Event::ServiceApplied(service("web-proxy-backup")));
    assert_eq!(applied(&progress).metadata.name, Some("web-proxy".to_string()));
    let progress = advance(progress, Event::ServiceApplied(service("web-proxy")));
    shows(&progress, "TestUrl { url: \"http://web-proxy.prod.svc.cluster.local:8080/live\"");
    let progress = advance(progress, Event::Answered(200));
    assert_eq!(applied(&progress).metadata.name, Some("web".to_string()));
    let progress = advance(start(), Event::ServiceFound(Some(replaced())));
    let progress = advance(progress, Event::Answered(500));
    let progress = advance(progress, Event::DeploymentFound(None));
    shows(&progress, "FetchService { namespace: \"prod\", name: \"web-proxy-backup\" }");
    let progress = advance(progress, Event::ServiceFetched(service("web-proxy-backup")));
    assert_eq!(applied(&progress).metadata.name, Some("web".to_string()));
}

#[test]
fn first_read_decides_how_a_reconcile_ends() {
    let end = |events: Vec<Event>| match run(events) {
        Progress::Finished(Ok(requeue)) => requeue,
        other => panic!("unexpected {:?}", other),
    };
    let gone = || Event::ResourceFound(None);
    assert_eq!(end(vec![gone(), gone()]), Requeue::AwaitChange);
    let mut unrecorded = deleted();
    unrecorded.status = None;
    let removal = vec![
        Event::ResourceFound(Some(unrecorded)),
        Event::ServiceFound(None),
        Event::Done,
        gone(),
    ];
    assert_eq!(end(removal), Requeue::AwaitChange);
    let mut missing = until_original();
    missing.extend([Event::ServiceFound(None), gone(), gone()]);
    assert_eq!(end(missing), Requeue::After(30));
    let mut confirmed = until_original();
    let found = Event::ServiceFound(Some(replaced()));
    confirmed.extend([found, Event::Answered(200), gone(), gone()]);
    assert_eq!(end(confirmed), Requeue::After(30));
    let mut late = until_original();
    late[1] = Event::ResourceEnsured(deleted());
    late.extend([Event::ServiceFound(None), gone(), gone()]);
    assert_eq!(end(late), Requeue::After(30));
}

#[test]
fn replaced_service_is_not_backed_up_again() {
    let mut progress = reconcile_replaced_service(&resource().metadata);
    let mut events = until_original();
    events.extend([
        Event::ServiceFound(Some(replaced())),
        Event::Answered(200),
        Event::ResourceFound(Some(recorded())),
        Event::Done,
        Event::ResourceFound(Some(recorded())),
        Event::Done,
    ]);
    for event in events {
        assert!(!matches!(
            action(&progress),
            Action::ApplyService { .. }
                | Action::DeleteService { .. }
                | Action::ApplyDeployment { .. }
        ));
        progress = advance(progress, event);
    }
    assert!(matches!(progress, Progress::Finished(Ok(Requeue::After(30)))));
}

#[test]
fn warning_is_taken_back() {
    let progress = from_original(Event::ServiceFound(None));
    let progress = advance(progress, Event::ResourceFound(Some(recorded())));
    let mut warned = recorded();
    warned.status = Some(patched(&progress).clone());
    assert_eq!(
        warned.status.as_ref().unwrap().warning,
        Some("Service web was not found".to_string())
    );
    let progress = from_original(Event::ServiceFound(Some(replaced())));
    let progress = advance(progress, Event::Answered(200));
    let progress = advance(progress, Event::ResourceFound(Some(warned)));
    let expected = ReplacedServiceResourceStatus { warning: None, ..recorded().status.unwrap() };
    assert_eq!(patched(&progress), &expected);
}
