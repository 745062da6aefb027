use tsproxy_operator::action::{field_manager, Action};
use tsproxy_operator::meta::{ObjectMeta, OwnerReference};
use tsproxy_operator::service::{
    create_copy_of_original_service, make_forwarded_port, make_proxy_service, service_ports,
    tsproxy_labels, IntOrString, Service, ServicePort, ServiceSpec,
};
use tsproxy_operator::string_map::StringMap;

fn owner() -> OwnerReference {
    OwnerReference {
        api_version: "tsproxy.digizuite.com/v1alpha1".to_string(),
        block_owner_deletion: None,
        controller: Some(false),
        kind: "ReplacedService".to_string(),
        name: "web-replacement".to_string(),
        uid: "uid-1".to_string(),
    }
}

fn port(number: i32) -> ServicePort {
    ServicePort {
        app_protocol: None,
        name: Some("http".to_string()),
        node_port: None,
        port: number,
        protocol: Some("TCP".to_string()),
        target_port: Some(IntOrString::String("web".to_string())),
    }
}

fn service() -> Service {
    let mut metadata = ObjectMeta::empty();
    metadata.name = Some("web".to_string());
    metadata.namespace = Some("prod".to_string());
    metadata.uid = Some("service-uid".to_string());
    metadata.resource_version = Some("12".to_string());
    metadata.generation = Some(3);
    metadata.generate_name = Some("we".to_string());
    metadata.self_link = Some("/web".to_string());
    metadata.deletion_grace_period_seconds = Some(30);
    metadata.finalizers = Some(vec!["keep".to_string()]);
    metadata.managed_fields = Some(Vec::new());
    metadata.labels = Some(StringMap::singleton("app".to_string(), "web".to_string()));
    metadata.annotations = Some(StringMap::singleton("team".to_string(), "a".to_string()));
    metadata.owner_references = Some(vec![owner()]);
    let mut spec = ServiceSpec::empty();
    spec.cluster_ip = Some("10.0.0.1".to_string());
    spec.cluster_ips = Some(vec!["10.0.0.1".to_string()]);
    spec.type_ = Some("ClusterIP".to_string());
    spec.selector = Some(StringMap::singleton("app".to_string(), "web".to_string()));
    spec.ports = Some(vec![port(80), port(443)]);
    let status = Some(k8s_openapi::api::core::v1::ServiceStatus::default());
    Service { metadata, spec: Some(spec), status }
}

#[test]
fn copy_keeps_what_a_user_wrote() {
    let copy = create_copy_of_original_service("web-proxy-backup".to_string(), service());
    let meta = copy.metadata;
    assert_eq!(meta.name, Some("web-proxy-backup".to_string()));
    assert_eq!(meta.namespace, Some("prod".to_string()));
    assert_eq!(
        meta.labels.unwrap().into_entries(),
        vec![("app".to_string(), "web".to_string())]
    );
    assert_eq!(
        meta.annotations.unwrap().into_entries(),
        vec![("team".to_string(), "a".to_string())]
    );
    assert_eq!(meta.owner_references, Some(vec![owner()]));
    assert_eq!(meta.uid, None);
    assert_eq!(meta.resource_version, None);
    assert_eq!(meta.generation, None);
    assert_eq!(meta.generate_name, None);
    assert_eq!(meta.self_link, None);
    assert_eq!(meta.deletion_grace_period_seconds, None);
    assert_eq!(meta.finalizers, None);
    assert!(meta.managed_fields.is_none());
    assert!(meta.creation_timestamp.is_none() && meta.deletion_timestamp.is_none());
    let spec = copy.spec.unwrap();
    assert_eq!(spec.cluster_ip, None);
    assert_eq!(spec.cluster_ips, None);
    assert_eq!(spec.type_, Some("ClusterIP".to_string()));
    assert_eq!(spec.ports, Some(vec![port(80), port(443)]));
    assert!(copy.status.is_none());
}

#[test]
fn copy_of_a_service_without_spec() {
    let mut bare = service();
    bare.spec = None;
    assert!(create_copy_of_original_service("b".to_string(), bare).spec.is_none());
}

#[test]
fn backup_and_back_gives_a_copy_of_the_original() {
    let backup = create_copy_of_original_service("web-proxy-backup".to_string(), service());
    let restored = create_copy_of_original_service("web".to_string(), backup);
    let direct = create_copy_of_original_service("web".to_string(), service());
    assert_eq!(format!("{:?}", restored), format!("{:?}", direct));
}

#[test]
fn ports_of_a_service() {
    assert_eq!(service_ports(&service()), vec![80, 443]);
    let mut silent = service();
    silent.spec.as_mut().unwrap().ports = None;
    assert!(service_ports(&silent).is_empty());
    silent.spec = None;
    assert!(service_ports(&silent).is_empty());
}

#[test]
fn labels_of_the_proxy() {
    assert_eq!(
        tsproxy_labels().into_entries(),
        vec![("app".to_string(), "tailscale-outbound-proxy".to_string())]
    );
}

#[test]
fn proxy_service_leads_to_the_proxy() {
    let service = make_proxy_service(
        "web".to_string(),
        "prod".to_string(),
        owner(),
        Some(vec![make_forwarded_port(80, 8080)]),
    );
    assert_eq!(service.metadata.name, Some("web".to_string()));
    assert_eq!(service.metadata.namespace, Some("prod".to_string()));
    assert!(service.metadata.owned_by(&"uid-1".to_string()));
    let spec = service.spec.unwrap();
    assert_eq!(
        spec.selector.unwrap().into_entries(),
        vec![("app".to_string(), "tailscale-outbound-proxy".to_string())]
    );
    assert_eq!(
        spec.ports,
        Some(vec![ServicePort {
            app_protocol: None,
            name: None,
            node_port: None,
            port: 80,
            protocol: None,
            target_port: Some(IntOrString::Int(8080)),
        }])
    );
    assert_eq!(spec.cluster_ip, None);
    assert_eq!(spec.type_, None);
    assert!(service.status.is_none());
}

#[test]
fn applied_service_names_itself() {
    match service().do_server_side_apply() {
        Action::ApplyService { namespace, name, service } => {
            assert_eq!(namespace, "prod");
            assert_eq!(name, "web");
            assert!(service.metadata.managed_fields.is_none());
            assert_eq!(service.metadata.uid, Some("service-uid".to_string()));
            assert_eq!(service.spec.unwrap().cluster_ip, Some("10.0.0.1".to_string()));
        }
        other => panic!("unexpected {:?}", other),
    }
    assert_eq!(field_manager(), "tsproxy-operator");
}

#[test]
fn what_the_cluster_assigned_does_not_come_back() {
    let mut backup = create_copy_of_original_service("web-proxy-backup".to_string(), service());
    backup.metadata.uid = Some("backup-uid".to_string());
    backup.metadata.resource_version = Some("99".to_string());
    backup.spec.as_mut().unwrap().cluster_ip = Some("10.0.0.2".to_string());
    backup.status = Some(k8s_openapi::api::core::v1::ServiceStatus::default());
    let restored = create_copy_of_original_service("web".to_string(), backup);
    let direct = create_copy_of_original_service("web".to_string(), service());
    assert_eq!(format!("{:?}", restored), format!("{:?}", direct));
    let again = create_copy_of_original_service("web".to_string(), direct);
    assert_eq!(format!("{:?}", again), format!("{:?}", restored));
}
