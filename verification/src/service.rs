//! Services: the one that is replaced, its backup, and those that point to the proxy.

use crate::meta::{ObjectMeta, ObjectMetaView, OwnerReference, OwnerReferenceView};
use crate::string_map::StringMap;
use vstd::prelude::*;

verus! {

/// What the cluster reports about a service. The operator only carries it along.
#[verifier::external_type_specification]
#[verifier::external_body]
pub struct ExServiceStatus(k8s_openapi::api::core::v1::ServiceStatus);

/// A port, by number or by name.
#[derive(Debug, PartialEq)]
pub enum IntOrString {
    Int(i32),
    String(String),
}

/// The mathematical view of [`IntOrString`].
pub enum IntOrStringView {
    Int(i32),
    String(Seq<char>),
}

impl View for IntOrString {
    type V = IntOrStringView;

    open spec fn view(&self) -> IntOrStringView {
        match self {
            IntOrString::Int(number) => IntOrStringView::Int(*number),
            IntOrString::String(name) => IntOrStringView::String(name@),
        }
    }
}

impl DeepView for IntOrString {
    type V = IntOrStringView;

    open spec fn deep_view(&self) -> IntOrStringView {
        self.view()
    }
}

/// How long a client sticks to an endpoint.
#[derive(Debug, Clone, Copy, PartialEq, Eq)]
pub struct ClientIpConfig {
    pub timeout_seconds: Option<i32>,
}

/// How clients stick to endpoints.
#[derive(Debug, Clone, Copy, PartialEq, Eq)]
pub struct SessionAffinityConfig {
    pub client_ip: Option<ClientIpConfig>,
}

/// One port of a service.
#[derive(Debug, PartialEq)]
pub struct ServicePort {
    pub app_protocol: Option<String>,
    pub name: Option<String>,
    pub node_port: Option<i32>,
    pub port: i32,
    pub protocol: Option<String>,
    pub target_port: Option<IntOrString>,
}

/// The mathematical view of [`ServicePort`].
#[verifier::ext_equal]
pub struct ServicePortView {
    pub app_protocol: Option<Seq<char>>,
    pub name: Option<Seq<char>>,
    pub node_port: Option<i32>,
    pub port: i32,
    pub protocol: Option<Seq<char>>,
    pub target_port: Option<IntOrStringView>,
}

impl View for ServicePort {
    type V = ServicePortView;

    open spec fn view(&self) -> ServicePortView {
        ServicePortView {
            app_protocol: self.app_protocol.deep_view(),
            name: self.name.deep_view(),
            node_port: self.node_port,
            port: self.port,
            protocol: self.protocol.deep_view(),
            target_port: self.target_port.deep_view(),
        }
    }
}

impl DeepView for ServicePort {
    type V = ServicePortView;

    open spec fn deep_view(&self) -> ServicePortView {
        self.view()
    }
}

/// What a service offers, and where it leads.
#[derive(Debug)]
pub struct ServiceSpec {
    pub allocate_load_balancer_node_ports: Option<bool>,
    pub cluster_ip: Option<String>,
    pub cluster_ips: Option<Vec<String>>,
    pub external_ips: Option<Vec<String>>,
    pub external_name: Option<String>,
    pub external_traffic_policy: Option<String>,
    pub health_check_node_port: Option<i32>,
    pub internal_traffic_policy: Option<String>,
    pub ip_families: Option<Vec<String>>,
    pub ip_family_policy: Option<String>,
    pub load_balancer_class: Option<String>,
    pub load_balancer_ip: Option<String>,
    pub load_balancer_source_ranges: Option<Vec<String>>,
    pub ports: Option<Vec<ServicePort>>,
    pub publish_not_ready_addresses: Option<bool>,
    pub selector: Option<StringMap>,
    pub session_affinity: Option<String>,
    pub session_affinity_config: Option<SessionAffinityConfig>,
    pub type_: Option<String>,
}

/// The mathematical view of [`ServiceSpec`].
#[verifier::ext_equal]
pub struct ServiceSpecView {
    pub allocate_load_balancer_node_ports: Option<bool>,
    pub cluster_ip: Option<Seq<char>>,
    pub cluster_ips: Option<Seq<Seq<char>>>,
    pub external_ips: Option<Seq<Seq<char>>>,
    pub external_name: Option<Seq<char>>,
    pub external_traffic_policy: Option<Seq<char>>,
    pub health_check_node_port: Option<i32>,
    pub internal_traffic_policy: Option<Seq<char>>,
    pub ip_families: Option<Seq<Seq<char>>>,
    pub ip_family_policy: Option<Seq<char>>,
    pub load_balancer_class: Option<Seq<char>>,
    pub load_balancer_ip: Option<Seq<char>>,
    pub load_balancer_source_ranges: Option<Seq<Seq<char>>>,
    pub ports: Option<Seq<ServicePortView>>,
    pub publish_not_ready_addresses: Option<bool>,
    pub selector: Option<Map<Seq<char>, Seq<char>>>,
    pub session_affinity: Option<Seq<char>>,
    pub session_affinity_config: Option<SessionAffinityConfig>,
    pub type_: Option<Seq<char>>,
}

impl View for ServiceSpec {
    type V = ServiceSpecView;

    open spec fn view(&self) -> ServiceSpecView {
        ServiceSpecView {
            allocate_load_balancer_node_ports: self.allocate_load_balancer_node_ports,
            cluster_ip: self.cluster_ip.deep_view(),
            cluster_ips: self.cluster_ips.deep_view(),
            external_ips: self.external_ips.deep_view(),
            external_name: self.external_name.deep_view(),
            external_traffic_policy: self.external_traffic_policy.deep_view(),
            health_check_node_port: self.health_check_node_port,
            internal_traffic_policy: self.internal_traffic_policy.deep_view(),
            ip_families: self.ip_families.deep_view(),
            ip_family_policy: self.ip_family_policy.deep_view(),
            load_balancer_class: self.load_balancer_class.deep_view(),
            load_balancer_ip: self.load_balancer_ip.deep_view(),
            load_balancer_source_ranges: self.load_balancer_source_ranges.deep_view(),
            ports: self.ports.deep_view(),
            publish_not_ready_addresses: self.publish_not_ready_addresses,
            selector: self.selector.deep_view(),
            session_affinity: self.session_affinity.deep_view(),
            session_affinity_config: self.session_affinity_config,
            type_: self.type_.deep_view(),
        }
    }
}

impl DeepView for ServiceSpec {
    type V = ServiceSpecView;

    open spec fn deep_view(&self) -> ServiceSpecView {
        self.view()
    }
}

/// A service.
#[derive(Debug)]
pub struct Service {
    pub metadata: ObjectMeta,
    pub spec: Option<ServiceSpec>,
    pub status: Option<k8s_openapi::api::core::v1::ServiceStatus>,
}

/// The mathematical view of [`Service`].
#[verifier::ext_equal]
pub struct ServiceView {
    pub metadata: ObjectMetaView,
    pub spec: Option<ServiceSpecView>,
    pub status: Option<k8s_openapi::api::core::v1::ServiceStatus>,
}

impl View for Service {
    type V = ServiceView;

    open spec fn view(&self) -> ServiceView {
        ServiceView {
            metadata: self.metadata@,
            spec: self.spec.deep_view(),
            status: self.status,
        }
    }
}

impl DeepView for Service {
    type V = ServiceView;

    open spec fn deep_view(&self) -> ServiceView {
        self.view()
    }
}

impl ServiceSpecView {
    /// A service specification in which nothing is set.
    pub open spec fn empty() -> ServiceSpecView {
        ServiceSpecView {
            allocate_load_balancer_node_ports: None,
            cluster_ip: None,
            cluster_ips: None,
            external_ips: None,
            external_name: None,
            external_traffic_policy: None,
            health_check_node_port: None,
            internal_traffic_policy: None,
            ip_families: None,
            ip_family_policy: None,
            load_balancer_class: None,
            load_balancer_ip: None,
            load_balancer_source_ranges: None,
            ports: None,
            publish_not_ready_addresses: None,
            selector: None,
            session_affinity: None,
            session_affinity_config: None,
            type_: None,
        }
    }
}

impl ServiceSpec {
    /// A service specification in which nothing is set.
    pub fn empty() -> (spec: ServiceSpec)
        ensures
            spec@ == ServiceSpecView::empty(),
    {
        ServiceSpec {
            allocate_load_balancer_node_ports: None,
            cluster_ip: None,
            cluster_ips: None,
            external_ips: None,
            external_name: None,
            external_traffic_policy: None,
            health_check_node_port: None,
            internal_traffic_policy: None,
            ip_families: None,
            ip_family_policy: None,
            load_balancer_class: None,
            load_balancer_ip: None,
            load_balancer_source_ranges: None,
            ports: None,
            publish_not_ready_addresses: None,
            selector: None,
            session_affinity: None,
            session_affinity_config: None,
            type_: None,
        }
    }
}

/// A copy of a service under a new name. It keeps what the service offers, its
/// labels, annotations, namespace and owners. It has none of what the cluster
/// assigns: no addresses, no status, no identity.
pub open spec fn service_copy(new_name: Seq<char>, service: ServiceView) -> ServiceView {
    ServiceView {
        metadata: ObjectMetaView {
            annotations: service.metadata.annotations,
            labels: service.metadata.labels,
            name: Some(new_name),
            namespace: service.metadata.namespace,
            owner_references: service.metadata.owner_references,
            ..ObjectMetaView::empty()
        },
        spec: match service.spec {
            Some(spec) => Some(ServiceSpecView { cluster_ip: None, cluster_ips: None, ..spec }),
            None => None,
        },
        status: None,
    }
}

/// Copies a service under a new name.
pub fn create_copy_of_original_service(new_name: String, service: Service) -> (copy: Service)
    ensures
        copy@ == service_copy(new_name@, service@),
        copy.metadata.name == Some(new_name),
        copy.metadata.namespace == service.metadata.namespace,
        copy.metadata.labels == service.metadata.labels,
        copy.metadata.annotations == service.metadata.annotations,
        copy.metadata.owner_references == service.metadata.owner_references,
        copy.status is None,
        service.spec is None ==> copy.spec is None,
        service.spec is Some ==> copy.spec == Some(
            ServiceSpec { cluster_ip: None, cluster_ips: None, ..service.spec->0 },
        ),
{
    let metadata = ObjectMeta {
        annotations: service.metadata.annotations,
        creation_timestamp: None,
        deletion_grace_period_seconds: None,
        deletion_timestamp: None,
        finalizers: None,
        generate_name: None,
        generation: None,
        labels: service.metadata.labels,
        managed_fields: None,
        name: Some(new_name),
        namespace: service.metadata.namespace,
        owner_references: service.metadata.owner_references,
        resource_version: None,
        self_link: None,
        uid: None,
    };
    let spec = match service.spec {
        Some(spec) => {
            let mut spec = spec;
            spec.cluster_ip = None;
            spec.cluster_ips = None;
            Some(spec)
        },
        None => None,
    };
    Service { metadata, spec, status: None }
}

/// Backing a service up and restoring it from the backup gives what copying it under
/// its own name gives, whatever the backup was called.
pub proof fn restoring_a_backup_gives_the_original(
    name: Seq<char>,
    backup: Seq<char>,
    service: ServiceView,
)
    ensures
        service_copy(name, service_copy(backup, service)) == service_copy(name, service),
        service_copy(name, service).metadata.namespace == service.metadata.namespace,
        forall|uid: Seq<char>| #[trigger]
            service_copy(name, service).metadata.owned_by(uid) == service.metadata.owned_by(uid),
        port_numbers(service_copy(name, service)) == port_numbers(service),
{
}

/// Two services differ in nothing but their names and what the cluster assigns.
pub open spec fn same_offer(one: ServiceView, other: ServiceView) -> bool {
    &&& one.metadata.annotations == other.metadata.annotations
    &&& one.metadata.labels == other.metadata.labels
    &&& one.metadata.namespace == other.metadata.namespace
    &&& one.metadata.owner_references == other.metadata.owner_references
    &&& match (one.spec, other.spec) {
        (Some(one), Some(other)) => one == (ServiceSpecView {
            cluster_ip: one.cluster_ip,
            cluster_ips: one.cluster_ips,
            ..other
        }),
        (None, None) => true,
        _ => false,
    }
}

/// What the cluster assigned to a backup does not come back: a service is restored as it
/// was, in all but what the cluster assigns, from any backup that still offers the same.
pub proof fn restoring_takes_only_the_offer(
    name: Seq<char>,
    backup: Seq<char>,
    service: ServiceView,
    kept: ServiceView,
)
    requires
        same_offer(kept, service_copy(backup, service)),
    ensures
        service_copy(name, kept) == service_copy(name, service),
        same_offer(service_copy(name, kept), service),
{
}

/// Copying a service twice under one name gives what copying it once gives.
pub proof fn copying_is_idempotent(name: Seq<char>, service: ServiceView)
    ensures
        service_copy(name, service_copy(name, service)) == service_copy(name, service),
{
}

/// The ports that a service lists.
pub open spec fn offered_ports(service: ServiceView) -> Option<Seq<ServicePortView>> {
    match service.spec {
        Some(spec) => spec.ports,
        None => None,
    }
}

/// The port numbers that a service offers, in order.
pub open spec fn port_numbers(service: ServiceView) -> Seq<i32> {
    match service.spec {
        Some(spec) => match spec.ports {
            Some(ports) => ports.map_values(|port: ServicePortView| port.port),
            None => Seq::empty(),
        },
        None => Seq::empty(),
    }
}

/// The port numbers that a service offers, in order.
pub fn service_ports(service: &Service) -> (numbers: Vec<i32>)
    ensures
        numbers@ == port_numbers(service@),
        service.spec is Some && service.spec->0.ports is Some ==> {
            &&& numbers@.len() == service.spec->0.ports->0@.len()
            &&& forall|i: int|
                0 <= i < numbers@.len() ==> #[trigger] numbers@[i]
                    == service.spec->0.ports->0@[i].port
        },
        service.spec is None || service.spec->0.ports is None ==> numbers@.len() == 0,
{
    let mut numbers: Vec<i32> = Vec::new();
    match &service.spec {
        Some(spec) => match &spec.ports {
            Some(ports) => {
                let len: usize = ports.len();
                for i in 0..len
                    invariant
                        len == ports.len(),
                        numbers.len() == i,
                        forall|j: int| 0 <= j < i ==> #[trigger] numbers@[j] == ports@[j].port,
                {
                    numbers.push(ports[i].port);
                }
                proof {
                    assert(numbers@ =~= port_numbers(service@));
                }
            },
            None => {},
        },
        None => {},
    }
    proof {
        assert(numbers@ =~= port_numbers(service@));
    }
    numbers
}

/// The label that the pods of the proxy carry.
pub open spec fn proxy_labels() -> Map<Seq<char>, Seq<char>> {
    map!["app"@ => "tailscale-outbound-proxy"@]
}

/// The label that the pods of the proxy carry.
pub fn tsproxy_labels() -> (labels: StringMap)
    ensures
        labels@ == proxy_labels(),
{
    StringMap::singleton("app".to_string(), "tailscale-outbound-proxy".to_string())
}

/// A service that leads to the pods of the proxy.
pub open spec fn proxy_service(
    name: Seq<char>,
    namespace: Seq<char>,
    owner: OwnerReferenceView,
    ports: Option<Seq<ServicePortView>>,
) -> ServiceView {
    ServiceView {
        metadata: ObjectMetaView {
            name: Some(name),
            namespace: Some(namespace),
            owner_references: Some(seq![owner]),
            ..ObjectMetaView::empty()
        },
        spec: Some(
            ServiceSpecView { ports, selector: Some(proxy_labels()), ..ServiceSpecView::empty() },
        ),
        status: None,
    }
}

/// Builds a service that leads to the pods of the proxy.
pub fn make_proxy_service(
    name: String,
    namespace: String,
    owner: OwnerReference,
    ports: Option<Vec<ServicePort>>,
) -> (service: Service)
    ensures
        service@ == proxy_service(name@, namespace@, owner@, ports.deep_view()),
        service.spec is Some,
        service.spec->0.ports == ports,
        service.metadata.name == Some(name),
        service.metadata.namespace == Some(namespace),
{
    let mut owners: Vec<OwnerReference> = Vec::new();
    owners.push(owner);
    proof {
        assert(owners.deep_view() =~= seq![owner@]);
    }
    let mut metadata = ObjectMeta::empty();
    metadata.name = Some(name);
    metadata.namespace = Some(namespace);
    metadata.owner_references = Some(owners);
    let mut spec = ServiceSpec::empty();
    spec.ports = ports;
    spec.selector = Some(tsproxy_labels());
    Service { metadata, spec: Some(spec), status: None }
}

/// A service that leads to the proxy is recognised as one by the uid of its owner, and
/// by no other uid.
pub proof fn proxy_service_is_recognised(
    name: Seq<char>,
    namespace: Seq<char>,
    owner: OwnerReferenceView,
    ports: Option<Seq<ServicePortView>>,
    uid: Seq<char>,
)
    ensures
        proxy_service(name, namespace, owner, ports).metadata.owned_by(uid) == (uid == owner.uid),
{
    let owners = proxy_service(name, namespace, owner, ports).metadata.owners();
    assert(owners[0].uid == owner.uid);
}

/// The port of the test service that leads from a port of the replaced service to a
/// port of the proxy.
pub open spec fn forwarded_port(service_port: i32, proxy_port: i32) -> ServicePortView {
    ServicePortView {
        app_protocol: None,
        name: None,
        node_port: None,
        port: service_port,
        protocol: None,
        target_port: Some(IntOrStringView::Int(proxy_port)),
    }
}

/// Builds the port that leads from a port of the replaced service to a port of the
/// proxy.
pub fn make_forwarded_port(service_port: i32, proxy_port: i32) -> (port: ServicePort)
    ensures
        port@ == forwarded_port(service_port, proxy_port),
        port.port == service_port,
        port.target_port == Some(IntOrString::Int(proxy_port)),
{
    ServicePort {
        app_protocol: None,
        name: None,
        node_port: None,
        port: service_port,
        protocol: None,
        target_port: Some(IntOrString::Int(proxy_port)),
    }
}

/// A service specification in which nothing is set has no entry at all.
pub proof fn empty_specification_sets_nothing()
    ensures
        ServiceSpecView::empty().allocate_load_balancer_node_ports is None,
        ServiceSpecView::empty().cluster_ip is None,
        ServiceSpecView::empty().cluster_ips is None,
        ServiceSpecView::empty().external_ips is None,
        ServiceSpecView::empty().external_name is None,
        ServiceSpecView::empty().external_traffic_policy is None,
        ServiceSpecView::empty().health_check_node_port is None,
        ServiceSpecView::empty().internal_traffic_policy is None,
        ServiceSpecView::empty().ip_families is None,
        ServiceSpecView::empty().ip_family_policy is None,
        ServiceSpecView::empty().load_balancer_class is None,
        ServiceSpecView::empty().load_balancer_ip is None,
        ServiceSpecView::empty().load_balancer_source_ranges is None,
        ServiceSpecView::empty().ports is None,
        ServiceSpecView::empty().publish_not_ready_addresses is None,
        ServiceSpecView::empty().selector is None,
        ServiceSpecView::empty().session_affinity is None,
        ServiceSpecView::empty().session_affinity_config is None,
        ServiceSpecView::empty().type_ is None,
{
}

/// A copy has its new name, and keeps what the service offers. What the cluster assigns
/// does not come along.
pub proof fn copy_keeps_the_offer(new_name: Seq<char>, service: ServiceView)
    ensures
        service_copy(new_name, service).metadata.name == Some(new_name),
        service_copy(new_name, service).metadata.namespace == service.metadata.namespace,
        service_copy(new_name, service).metadata.labels == service.metadata.labels,
        service_copy(new_name, service).metadata.annotations == service.metadata.annotations,
        service_copy(new_name, service).metadata.owner_references
            == service.metadata.owner_references,
        service_copy(new_name, service).metadata.creation_timestamp is None,
        service_copy(new_name, service).metadata.deletion_grace_period_seconds is None,
        service_copy(new_name, service).metadata.deletion_timestamp is None,
        service_copy(new_name, service).metadata.finalizers is None,
        service_copy(new_name, service).metadata.generate_name is None,
        service_copy(new_name, service).metadata.generation is None,
        service_copy(new_name, service).metadata.managed_fields is None,
        service_copy(new_name, service).metadata.resource_version is None,
        service_copy(new_name, service).metadata.self_link is None,
        service_copy(new_name, service).metadata.uid is None,
        service_copy(new_name, service).status is None,
        service_copy(new_name, service).spec is Some <==> service.spec is Some,
        service.spec is Some ==> {
            let spec = service.spec->0;
            let copied = service_copy(new_name, service).spec->0;
            &&& copied.cluster_ip is None
            &&& copied.cluster_ips is None
            &&& copied.ports == spec.ports
            &&& copied.selector == spec.selector
            &&& (ServiceSpecView {
                cluster_ip: spec.cluster_ip,
                cluster_ips: spec.cluster_ips,
                ..copied
            }) == spec
        },
{
}

/// The ports that are mapped are the numbers of the ports that the service lists, one for
/// each and in their order, whatever else is said of a port.
pub proof fn port_numbers_are_those_listed(service: ServiceView)
    ensures
        service.spec is Some && service.spec->0.ports is Some ==> {
            &&& port_numbers(service).len() == service.spec->0.ports->0.len()
            &&& forall|i: int|
                0 <= i < service.spec->0.ports->0.len() ==> #[trigger] port_numbers(service)[i]
                    == service.spec->0.ports->0[i].port
        },
        service.spec is None || service.spec->0.ports is None ==> port_numbers(service).len()
            == 0,
{
}

/// The ports that a service offers are those that its specification lists.
pub proof fn offered_ports_are_those_listed(service: ServiceView)
    ensures
        service.spec is Some ==> offered_ports(service) == service.spec->0.ports,
        service.spec is None ==> offered_ports(service) is None,
{
}

/// A service that leads to the proxy stands under the name and in the namespace that it was
/// given, has one owner, offers exactly the ports that it was given, and selects by the
/// label of the proxy alone. Nothing else of it is set.
pub proof fn proxy_service_offers_the_ports_given(
    name: Seq<char>,
    namespace: Seq<char>,
    owner: OwnerReferenceView,
    ports: Option<Seq<ServicePortView>>,
    label: Seq<char>,
)
    ensures
        proxy_service(name, namespace, owner, ports).spec is Some,
        proxy_service(name, namespace, owner, ports).spec->0.ports == ports,
        offered_ports(proxy_service(name, namespace, owner, ports)) == ports,
        proxy_service(name, namespace, owner, ports).spec->0.selector is Some,
        proxy_service(name, namespace, owner, ports).spec->0.selector->0.contains_key(label)
            <==> label == "app"@,
        proxy_service(name, namespace, owner, ports).spec->0.selector->0["app"@]
            == "tailscale-outbound-proxy"@,
        (ServiceSpecView {
            ports: None,
            selector: None,
            ..proxy_service(name, namespace, owner, ports).spec->0
        }) == ServiceSpecView::empty(),
        proxy_service(name, namespace, owner, ports).metadata.name == Some(name),
        proxy_service(name, namespace, owner, ports).metadata.namespace == Some(namespace),
        proxy_service(name, namespace, owner, ports).metadata.owner_references is Some,
        proxy_service(name, namespace, owner, ports).metadata.owner_references->0.len() == 1,
        proxy_service(name, namespace, owner, ports).metadata.owner_references->0[0] == owner,
        (ObjectMetaView {
            name: None,
            namespace: None,
            owner_references: None,
            ..proxy_service(name, namespace, owner, ports).metadata
        }) == ObjectMetaView::empty(),
        proxy_service(name, namespace, owner, ports).status is None,
{
}

/// A forwarded port offers the port of the service, leads to the port of the proxy by its
/// number, and leaves the rest to the cluster.
pub proof fn forwarded_port_leads_to_the_proxy_port(service_port: i32, proxy_port: i32)
    ensures
        forwarded_port(service_port, proxy_port).port == service_port,
        forwarded_port(service_port, proxy_port).target_port == Some(
            IntOrStringView::Int(proxy_port),
        ),
        forwarded_port(service_port, proxy_port).app_protocol is None,
        forwarded_port(service_port, proxy_port).name is None,
        forwarded_port(service_port, proxy_port).node_port is None,
        forwarded_port(service_port, proxy_port).protocol is None,
{
}

/// The label of the proxy is one, and always the same.
pub proof fn proxy_has_one_label(label: Seq<char>)
    ensures
        proxy_labels().contains_key(label) <==> label == "app"@,
        proxy_labels()["app"@] == "tailscale-outbound-proxy"@,
{
}

/// A service is understood as it is written: every port in its place, with its number and
/// where it leads, and the selector.
pub proof fn services_read_as_written(service: Service)
    ensures
        service@.metadata == service.metadata@,
        service@.status == service.status,
        service@.spec is Some <==> service.spec is Some,
        service.spec is Some ==> {
            let spec = service.spec->0;
            let read = service@.spec->0;
            &&& read.selector is Some <==> spec.selector is Some
            &&& spec.selector is Some ==> read.selector->0 == spec.selector->0@
            &&& read.cluster_ip is Some <==> spec.cluster_ip is Some
            &&& read.cluster_ips is Some <==> spec.cluster_ips is Some
            &&& read.ports is Some <==> spec.ports is Some
            &&& spec.ports is Some ==> {
                &&& read.ports->0.len() == spec.ports->0.len()
                &&& forall|i: int|
                    0 <= i < spec.ports->0.len() ==> {
                        let port = spec.ports->0[i];
                        &&& (#[trigger] read.ports->0[i]).port == port.port
                        &&& read.ports->0[i].node_port == port.node_port
                        &&& read.ports->0[i].target_port is Some <==> port.target_port is Some
                        &&& port.target_port is Some ==> match port.target_port->0 {
                            IntOrString::Int(number) => read.ports->0[i].target_port->0
                                == IntOrStringView::Int(number),
                            IntOrString::String(name) => read.ports->0[i].target_port->0
                                == IntOrStringView::String(name@),
                        }
                    }
            }
        },
{
}

} // verus!
