use k8s_openapi::api::apps::v1::{DeploymentSpec, DeploymentStatus};
use tsproxy_operator::action::Action;
use tsproxy_operator::deployment::{
    make_auth_key_secret, make_proxy_deployment, Deployment, EnvVar, ReplicaSpec,
    SecretKeySelector,
};
use tsproxy_operator::endpoints::{
    EndpointAddress, EndpointSubset, Endpoints, ObjectReference,
};
use tsproxy_operator::meta::{ObjectMeta, OwnerReference};
use tsproxy_operator::replaced_service::ReplacedServiceSpec;
use tsproxy_operator::service::make_proxy_service;
use tsproxy_operator::string_map::StringMap;

fn owner() -> OwnerReference {
    OwnerReference {
        api_version: "tsproxy.digizuite.com/v1alpha1".to_string(),
        block_owner_deletion: None,
        controller: Some(false),
        kind: "ReplacedService".to_string(),
        name: "web-replacement".to_string(),
        uid: "uid-1".to_string(),
    }
}

fn spec() -> ReplacedServiceSpec {
    ReplacedServiceSpec {
        service_to_replace: "web".to_string(),
        ports: Vec::new(),
        node_selector: Some(StringMap::singleton("disk".to_string(), "ssd".to_string())),
        health_endpoint: None,
        health_test_protocol: None,
        ignore_certificate_errors: None,
        tailscale_host_name: "host".to_string(),
        tailscale_tags: Vec::new(),
        service_account: "account".to_string(),
        proxy_state_secret_name: "state".to_string(),
    }
}

fn deployment(replicas: Option<i32>) -> Deployment {
    let mut metadata = ObjectMeta::empty();
    metadata.name = Some("web-deployment".to_string());
    metadata.namespace = Some("prod".to_string());
    metadata.managed_fields = Some(Vec::new());
    metadata.uid = Some("deployment-uid".to_string());
    let mut rest = DeploymentSpec::default();
    rest.min_ready_seconds = Some(9);
    Deployment {
        metadata,
        spec: Some(ReplicaSpec { replicas, rest }),
        status: Some(DeploymentStatus::default()),
    }
}

fn text(texts: &[&str]) -> Option<Vec<String>> {
    Some(texts.iter().map(|text| text.to_string()).collect())
}

fn variable(name: &str, value: &str) -> EnvVar {
    EnvVar { name: name.to_string(), value: Some(value.to_string()), secret_key_ref: None }
}

#[test]
fn scaling_changes_the_replicas_alone() {
    let scaled = deployment(Some(3)).scale(0);
    let scaled_spec = scaled.spec.as_ref().unwrap();
    assert_eq!(scaled_spec.replicas, Some(0));
    assert_eq!(scaled_spec.rest.min_ready_seconds, Some(9));
    assert_eq!(scaled.metadata.uid, Some("deployment-uid".to_string()));
    assert!(scaled.status.is_some());
    assert_eq!(
        format!("{:?}", scaled.scale(1)),
        format!("{:?}", deployment(Some(1)))
    );
}

#[test]
fn deployment_without_spec_stays_without() {
    let mut bare = deployment(None);
    bare.spec = None;
    assert!(bare.scale(1).spec.is_none());
}

#[test]
fn owner_of_a_deployment() {
    let owned = deployment(Some(1)).add_owner(owner());
    assert!(owned.metadata.owned_by(&"uid-1".to_string()));
    assert_eq!(owned.spec.unwrap().replicas, Some(1));
}

#[test]
fn applied_deployment_names_itself() {
    match deployment(Some(2)).do_server_side_apply() {
        Action::ApplyDeployment { namespace, name, deployment } => {
            assert_eq!(namespace, "prod");
            assert_eq!(name, "web-deployment");
            assert!(deployment.metadata.managed_fields.is_none());
            assert_eq!(deployment.spec.unwrap().replicas, Some(2));
        }
        other => panic!("unexpected {:?}", other),
    }
}

#[test]
fn deployment_of_the_proxy() {
    let proxy = make_proxy_deployment("prod".to_string(), &spec());
    assert_eq!(proxy.metadata.name, Some("tailscale-outbound-proxy".to_string()));
    assert_eq!(proxy.metadata.namespace, Some("prod".to_string()));
    assert_eq!(proxy.metadata.owner_references, None);
    let labels = vec![("app".to_string(), "tailscale-outbound-proxy".to_string())];
    assert_eq!(proxy.metadata.labels.unwrap().into_entries(), labels);
    let proxy_spec = proxy.spec.unwrap();
    assert_eq!(proxy_spec.replicas, Some(1));
    assert_eq!(proxy_spec.strategy, Some("Recreate".to_string()));
    assert_eq!(proxy_spec.match_labels.unwrap().into_entries(), labels);
    assert_eq!(proxy_spec.template_labels.unwrap().into_entries(), labels);
    let pod = proxy_spec.template.unwrap();
    assert_eq!(pod.service_account, Some("account".to_string()));
    assert_eq!(
        pod.node_selector.unwrap().into_entries(),
        vec![("disk".to_string(), "ssd".to_string())]
    );
}

#[test]
fn containers_of_the_proxy() {
    let pod = make_proxy_deployment("prod".to_string(), &spec()).spec.unwrap().template.unwrap();
    let init = &pod.init_containers.unwrap()[0];
    assert_eq!(init.name, "sysctler");
    assert_eq!(init.image, Some("busybox".to_string()));
    assert_eq!(init.image_pull_policy, Some("Always".to_string()));
    assert_eq!(init.command, text(&["/bin/sh"]));
    assert_eq!(
        init.args,
        text(&["-c", "sysctl -w net.ipv4.ip_forward=1 net.ipv6.conf.all.forwarding=1"])
    );
    let context = init.security_context.as_ref().unwrap();
    assert_eq!(context.privileged, Some(true));
    assert_eq!(context.capabilities, None);
    assert_eq!(pod.containers.len(), 1);
    let container = &pod.containers[0];
    assert_eq!(container.name, "tailscale");
    assert_eq!(
        container.image,
        Some("ghcr.io/digizuite/tailscale-fix:sha-a82e762".to_string())
    );
    assert_eq!(container.image_pull_policy, Some("Always".to_string()));
    assert_eq!(container.command, None);
    assert_eq!(container.args, None);
    let context = container.security_context.as_ref().unwrap();
    assert_eq!(context.privileged, None);
    assert_eq!(context.capabilities.as_ref().unwrap().add, text(&["NET_ADMIN"]));
}

#[test]
fn variables_of_the_proxy() {
    let pod = make_proxy_deployment("prod".to_string(), &spec()).spec.unwrap().template.unwrap();
    assert_eq!(
        pod.containers[0].env,
        Some(vec![
            variable("TS_KUBE_SECRET", "state"),
            variable("TS_USERSPACE", "true"),
            variable("TS_AUTH_ONCE", "true"),
            variable("TS_EXTRA_ARGS", "--ssh"),
            variable("TS_HOSTNAME", "host"),
            EnvVar {
                name: "TS_AUTHKEY".to_string(),
                value: None,
                secret_key_ref: Some(SecretKeySelector {
                    key: "TS_AUTHKEY".to_string(),
                    name: Some("state".to_string()),
                    optional: Some(false),
                }),
            },
        ])
    );
}

#[test]
fn proxy_finds_its_key_in_the_secret() {
    let secret = make_auth_key_secret(
        spec().proxy_state_secret_name,
        "prod".to_string(),
        owner(),
        "tskey-1".to_string(),
    );
    assert_eq!(secret.metadata.name, Some("state".to_string()));
    assert_eq!(secret.metadata.namespace, Some("prod".to_string()));
    assert!(secret.metadata.owned_by(&"uid-1".to_string()));
    assert_eq!(
        secret.string_data.unwrap().into_entries(),
        vec![("TS_AUTHKEY".to_string(), "tskey-1".to_string())]
    );
}

#[test]
fn proxy_services_select_the_pods_of_the_proxy() {
    let service = make_proxy_service("web".to_string(), "prod".to_string(), owner(), None);
    let proxy = make_proxy_deployment("prod".to_string(), &spec());
    assert_eq!(
        service.spec.unwrap().selector.unwrap().into_entries(),
        proxy.spec.unwrap().template_labels.unwrap().into_entries()
    );
}

#[test]
fn first_target_of_endpoints() {
    let target = |name: &str| ObjectReference {
        kind: Some("Pod".to_string()),
        name: Some(name.to_string()),
    };
    let address = |name: &str| EndpointAddress { target_ref: Some(target(name)) };
    let endpoints = Endpoints {
        subsets: Some(vec![
            EndpointSubset { addresses: Some(vec![address("web-1"), address("web-2")]) },
            EndpointSubset { addresses: Some(vec![address("web-3")]) },
        ]),
    };
    assert_eq!(endpoints.first_target(), Some(&target("web-1")));
    assert_eq!(Endpoints { subsets: None }.first_target(), None);
    assert_eq!(Endpoints { subsets: Some(Vec::new()) }.first_target(), None);
    let not_ready = Endpoints {
        subsets: Some(vec![
            EndpointSubset { addresses: None },
            EndpointSubset { addresses: Some(vec![address("web-3")]) },
        ]),
    };
    assert_eq!(not_ready.first_target(), None);
    let loose = Endpoints {
        subsets: Some(vec![EndpointSubset {
            addresses: Some(vec![EndpointAddress { target_ref: None }]),
        }]),
    };
    assert_eq!(loose.first_target(), None);
}

#[test]
fn pods_are_told_from_other_targets() {
    let target = |kind: Option<&str>| ObjectReference {
        kind: kind.map(|kind| kind.to_string()),
        name: None,
    };
    assert!(target(Some("Pod")).is_pod());
    assert!(!target(Some("pod")).is_pod());
    assert!(!target(None).is_pod());
}
