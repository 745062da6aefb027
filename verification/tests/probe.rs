use tsproxy_operator::probe::{
    ignore_certificate_errors, judge_answer, judge_silence, make_test_url,
};
use tsproxy_operator::replaced_service::{ReplacedServiceSpec, TestProtocol};

fn spec() -> ReplacedServiceSpec {
    ReplacedServiceSpec {
        service_to_replace: "web".to_string(),
        ports: Vec::new(),
        node_selector: None,
        health_endpoint: None,
        health_test_protocol: None,
        ignore_certificate_errors: None,
        tailscale_host_name: "host".to_string(),
        tailscale_tags: Vec::new(),
        service_account: "account".to_string(),
        proxy_state_secret_name: "state".to_string(),
    }
}

#[test]
fn address_without_a_path() {
    assert_eq!(
        make_test_url(&spec(), &"prod".to_string(), 8080),
        "http://web-proxy.prod.svc.cluster.local:8080/"
    );
}

#[test]
fn address_with_scheme_and_path() {
    let mut spec = spec();
    spec.health_endpoint = Some("//health/live".to_string());
    spec.health_test_protocol = Some(TestProtocol::Https);
    assert_eq!(
        make_test_url(&spec, &"prod".to_string(), 443),
        "https://web-proxy.prod.svc.cluster.local:443/health/live"
    );
    spec.health_test_protocol = Some(TestProtocol::Http);
    spec.health_endpoint = Some("live".to_string());
    assert_eq!(
        make_test_url(&spec, &"prod".to_string(), 80),
        "http://web-proxy.prod.svc.cluster.local:80/live"
    );
}

#[test]
fn certificates_are_checked_by_default() {
    let mut spec = spec();
    assert!(!ignore_certificate_errors(&spec));
    spec.ignore_certificate_errors = Some(false);
    assert!(!ignore_certificate_errors(&spec));
    spec.ignore_certificate_errors = Some(true);
    assert!(ignore_certificate_errors(&spec));
}

#[test]
fn only_success_statuses_succeed() {
    let failure = Some("Proxied service did respond, but the result was not a success".to_string());
    for status in [200u16, 201, 204, 299] {
        assert_eq!(judge_answer(status), None);
    }
    for status in [0u16, 99, 100, 199, 300, 301, 404, 500, 503, 999, 1000, 65535] {
        assert_eq!(judge_answer(status), failure);
    }
}

#[test]
fn silence_is_reported_with_its_reason() {
    assert_eq!(
        judge_silence(&"timed out".to_string()),
        "Failed to test proxy service: timed out"
    );
}
