use std::collections::HashMap;
use tsproxy_operator::port_map::{forwarded_ports, generate_port_map};
use tsproxy_operator::replaced_service::ServicePortMapping;
use tsproxy_operator::service::IntOrString;

fn mapping(original_port: Option<i32>, proxy_port: i32) -> ServicePortMapping {
    ServicePortMapping { original_port, proxy_port }
}

#[test]
fn single_port_needs_no_original() {
    let map = generate_port_map(&vec![80], &vec![mapping(None, 8080)]).unwrap();
    assert_eq!(map, HashMap::from([(80, 8080)]));
    let map = generate_port_map(&vec![80], &vec![mapping(Some(443), 8080)]).unwrap();
    assert_eq!(map, HashMap::from([(80, 8080)]));
}

#[test]
fn single_port_without_mapping() {
    assert_eq!(
        generate_port_map(&vec![80], &Vec::new()),
        Err("Service has no ports defined".to_string())
    );
}

#[test]
fn single_port_with_two_mappings() {
    assert_eq!(
        generate_port_map(&vec![80], &vec![mapping(Some(80), 1), mapping(Some(81), 2)]),
        Err(
            "ReplacedService has multiple ports, while the service itself only has 1 port defined"
                .to_string()
        )
    );
}

#[test]
fn several_ports_go_by_their_original() {
    let mappings = vec![mapping(None, 1), mapping(Some(443), 8443), mapping(Some(80), 8080)];
    let map = generate_port_map(&vec![80, 443], &mappings).unwrap();
    assert_eq!(map, HashMap::from([(80, 8080), (443, 8443)]));
}

#[test]
fn first_mapping_of_a_port_counts() {
    let mappings = vec![mapping(Some(80), 1), mapping(Some(80), 2), mapping(Some(81), 3)];
    let map = generate_port_map(&vec![80, 81], &mappings).unwrap();
    assert_eq!(map, HashMap::from([(80, 1), (81, 3)]));
}

#[test]
fn repeated_port_is_mapped_once() {
    let map = generate_port_map(&vec![53, 53], &vec![mapping(Some(53), 5353)]).unwrap();
    assert_eq!(map, HashMap::from([(53, 5353)]));
    assert_eq!(forwarded_ports(&map).len(), 1);
}

#[test]
fn first_unmapped_port_is_reported() {
    assert_eq!(
        generate_port_map(&vec![80, 443, -1], &vec![mapping(Some(80), 1)]),
        Err("Service has multiple ports, missing proxy port defined for 443".to_string())
    );
    assert_eq!(
        generate_port_map(&vec![-1, 80], &vec![mapping(Some(80), 1)]),
        Err("Service has multiple ports, missing proxy port defined for -1".to_string())
    );
}

#[test]
fn every_mapped_port_is_forwarded() {
    let map = HashMap::from([(80, 8080), (443, 8443), (53, 5353)]);
    let mut ports: Vec<(i32, i32)> = forwarded_ports(&map)
        .into_iter()
        .map(|port| {
            assert!(port.name.is_none() && port.protocol.is_none() && port.node_port.is_none());
            match port.target_port {
                Some(IntOrString::Int(target)) => (port.port, target),
                other => panic!("unexpected target {:?}", other),
            }
        })
        .collect();
    ports.sort();
    assert_eq!(ports, vec![(53, 5353), (80, 8080), (443, 8443)]);
    assert!(forwarded_ports(&HashMap::new()).is_empty());
}
