use tsproxy_operator::meta::ObjectMeta;
use tsproxy_operator::replaced_service::{
    backup_service_name, ReplacedService, ReplacedServiceResourceStatus, ReplacedServiceSpec,
    ServicePortMapping, TestProtocol,
};
use tsproxy_operator::string_map::StringMap;

fn resource() -> ReplacedService {
    let mut metadata = ObjectMeta::empty();
    metadata.name = Some("web-replacement".to_string());
    metadata.namespace = Some("prod".to_string());
    metadata.uid = Some("uid-1".to_string());
    ReplacedService {
        metadata,
        spec: ReplacedServiceSpec {
            service_to_replace: "web".to_string(),
            ports: vec![ServicePortMapping { original_port: Some(80), proxy_port: 8080 }],
            node_selector: Some(StringMap::singleton("disk".to_string(), "ssd".to_string())),
            health_endpoint: Some("/health".to_string()),
            health_test_protocol: Some(TestProtocol::Https),
            ignore_certificate_errors: Some(true),
            tailscale_host_name: "host".to_string(),
            tailscale_tags: vec!["tag:proxy".to_string()],
            service_account: "account".to_string(),
            proxy_state_secret_name: "state".to_string(),
        },
        status: None,
    }
}

fn full_status() -> ReplacedServiceResourceStatus {
    ReplacedServiceResourceStatus {
        active: Some(true),
        tailscale_hostname: Some("machine".to_string()),
        replaced_deployment: Some("web-deployment".to_string()),
        warning: Some("careful".to_string()),
    }
}

fn shown(resource: &ReplacedService) -> String {
    format!("{:?}", resource)
}

#[test]
fn defaults() {
    assert_eq!(TestProtocol::default(), TestProtocol::Http);
    assert_eq!(
        ServicePortMapping::default(),
        ServicePortMapping { original_port: None, proxy_port: 0 }
    );
    let status = ReplacedServiceResourceStatus::default();
    assert_eq!(status.active, None);
    assert_eq!(status.tailscale_hostname, None);
    assert_eq!(status.replaced_deployment, None);
    assert_eq!(status.warning, None);
}

#[test]
fn three_names_for_three_services() {
    let spec = resource().spec;
    assert_eq!(spec.test_service_name(), "web-proxy");
    assert_eq!(backup_service_name(&spec.service_to_replace), "web-proxy-backup");
}

#[test]
fn cloned_spec_reads_the_same() {
    let spec = resource().spec;
    assert_eq!(format!("{:?}", spec.clone()), format!("{:?}", spec));
}

#[test]
fn active_is_set_alone() {
    let status = resource().set_active(true).status.unwrap();
    assert_eq!(status.active, Some(true));
    assert_eq!(status.warning, None);
    assert_eq!(status.replaced_deployment, None);
    let mut with_status = resource();
    with_status.status = Some(full_status());
    let status = with_status.set_active(false).status.unwrap();
    assert_eq!(status.active, Some(false));
    assert_eq!(status.tailscale_hostname, Some("machine".to_string()));
    assert_eq!(status.replaced_deployment, Some("web-deployment".to_string()));
    assert_eq!(status.warning, Some("careful".to_string()));
}

#[test]
fn warning_is_set_and_cleared_alone() {
    let status = resource().set_warning("no".to_string()).status.unwrap();
    assert_eq!(status.warning, Some("no".to_string()));
    assert_eq!(status.active, None);
    let mut with_status = resource();
    with_status.status = Some(full_status());
    let warned = with_status.set_warning("no".to_string());
    assert_eq!(warned.status.as_ref().unwrap().warning, Some("no".to_string()));
    let cleared = warned.clear_warning().status.unwrap();
    assert_eq!(cleared.warning, None);
    assert_eq!(cleared.active, Some(true));
    assert_eq!(cleared.replaced_deployment, Some("web-deployment".to_string()));
}

#[test]
fn clearing_makes_no_status() {
    let before = shown(&resource());
    assert_eq!(shown(&resource().clear_warning()), before);
}

#[test]
fn clearing_undoes_warning() {
    let mut with_status = resource();
    with_status.status = Some(ReplacedServiceResourceStatus { warning: None, ..full_status() });
    let before = shown(&with_status);
    assert_eq!(shown(&with_status.set_warning("no".to_string()).clear_warning()), before);
}

#[test]
fn reports_can_come_in_any_order() {
    let one = resource()
        .set_active(false)
        .set_warning("no".to_string())
        .set_deployment("d".to_string());
    let other = resource()
        .set_deployment("d".to_string())
        .set_warning("no".to_string())
        .set_active(false);
    assert_eq!(shown(&one), shown(&other));
}

#[test]
fn deployment_is_put_on_record() {
    assert_eq!(resource().recorded_deployment(), None);
    let recorded = resource().set_deployment("web-deployment".to_string());
    assert_eq!(recorded.recorded_deployment(), Some("web-deployment".to_string()));
    let mut silent = resource();
    silent.status = Some(ReplacedServiceResourceStatus::default());
    assert_eq!(silent.recorded_deployment(), None);
}

#[test]
fn owner_reference_needs_name_and_uid() {
    let owner = resource().owner_reference().unwrap();
    assert_eq!(owner.api_version, "tsproxy.digizuite.com/v1alpha1");
    assert_eq!(owner.kind, "ReplacedService");
    assert_eq!(owner.name, "web-replacement");
    assert_eq!(owner.uid, "uid-1");
    assert_eq!(owner.controller, Some(false));
    assert_eq!(owner.block_owner_deletion, None);
    let mut nameless = resource();
    nameless.metadata.name = None;
    assert!(nameless.owner_reference().is_none());
    let mut unborn = resource();
    unborn.metadata.uid = None;
    assert!(unborn.owner_reference().is_none());
}

#[test]
fn cloned_status_reads_the_same() {
    assert_eq!(full_status().clone(), full_status());
    assert_ne!(full_status(), ReplacedServiceResourceStatus::default());
    assert_eq!(resource(), resource());
}
