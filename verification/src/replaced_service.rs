//! The custom resource that asks for a service to be replaced.

use crate::meta::{ObjectMeta, ObjectMetaView, OwnerReference, OwnerReferenceView};
use crate::string_map::StringMap;
use vstd::prelude::*;
use vstd::string::*;

verus! {

/// The protocol a health endpoint is tested with.
#[derive(Debug, Clone, Copy, PartialEq, Eq, Structural)]
pub enum TestProtocol {
    Http,
    Https,
}

impl Default for TestProtocol {
    fn default() -> (protocol: TestProtocol)
        ensures
            protocol == TestProtocol::Http,
    {
        TestProtocol::Http
    }
}

/// How one port of the replaced service maps to a port of the proxy.
#[derive(Debug, Clone, Copy, PartialEq, Eq)]
pub struct ServicePortMapping {
    /// If the service that is being replaced has multiple ports, then
    /// this is used to map between the ports. Not needed if there is only
    /// 1 port on the replaced service.
    pub original_port: Option<i32>,
    /// The port that should be invoked on the proxy
    pub proxy_port: i32,
}

impl Default for ServicePortMapping {
    fn default() -> (mapping: ServicePortMapping)
        ensures
            mapping == (ServicePortMapping { original_port: None, proxy_port: 0 }),
    {
        ServicePortMapping { original_port: None, proxy_port: 0 }
    }
}

/// Replaces this specified service with a service that is proxied through tailscale
#[derive(Debug, PartialEq)]
pub struct ReplacedServiceSpec {
    /// The name of the kubernetes service to replace
    pub service_to_replace: String,
    /// How to map the original ports through the proxy
    pub ports: Vec<ServicePortMapping>,
    /// Node selectors to the apply to the deployment that replaces the service
    pub node_selector: Option<StringMap>,
    /// A path to a health endpoint to check if the service is up
    pub health_endpoint: Option<String>,
    /// What protocol to use when testing the endpoint
    pub health_test_protocol: Option<TestProtocol>,
    /// If certificate errors should be ignored when testing a https endpoint
    pub ignore_certificate_errors: Option<bool>,
    /// The name the tailscale proxy should have in the tailnet
    pub tailscale_host_name: String,
    /// The tags the tailscale proxy should have in the tailnet
    pub tailscale_tags: Vec<String>,
    /// The service account the proxy pod should use.
    pub service_account: String,
    /// The secret to use for storing tailscales state. You do not have
    /// to create this secret yourself.
    pub proxy_state_secret_name: String,
}

/// The mathematical view of [`ReplacedServiceSpec`].
#[verifier::ext_equal]
pub struct ReplacedServiceSpecView {
    pub service_to_replace: Seq<char>,
    pub ports: Seq<ServicePortMapping>,
    pub node_selector: Option<Map<Seq<char>, Seq<char>>>,
    pub health_endpoint: Option<Seq<char>>,
    pub health_test_protocol: Option<TestProtocol>,
    pub ignore_certificate_errors: Option<bool>,
    pub tailscale_host_name: Seq<char>,
    pub tailscale_tags: Seq<Seq<char>>,
    pub service_account: Seq<char>,
    pub proxy_state_secret_name: Seq<char>,
}

impl View for ReplacedServiceSpec {
    type V = ReplacedServiceSpecView;

    open spec fn view(&self) -> ReplacedServiceSpecView {
        ReplacedServiceSpecView {
            service_to_replace: self.service_to_replace@,
            ports: self.ports@,
            node_selector: self.node_selector.deep_view(),
            health_endpoint: self.health_endpoint.deep_view(),
            health_test_protocol: self.health_test_protocol,
            ignore_certificate_errors: self.ignore_certificate_errors,
            tailscale_host_name: self.tailscale_host_name@,
            tailscale_tags: self.tailscale_tags.deep_view(),
            service_account: self.service_account@,
            proxy_state_secret_name: self.proxy_state_secret_name@,
        }
    }
}

impl DeepView for ReplacedServiceSpec {
    type V = ReplacedServiceSpecView;

    open spec fn deep_view(&self) -> ReplacedServiceSpecView {
        self.view()
    }
}

/// What the operator reports about a replaced service.
#[derive(Debug, PartialEq)]
pub struct ReplacedServiceResourceStatus {
    /// Whether the last reconcile left the service running through the proxy
    pub active: Option<bool>,
    /// The hostname of the tailscale machine to ssh to
    pub tailscale_hostname: Option<String>,
    /// The name of the deployment that was scaled down to replace the service
    pub replaced_deployment: Option<String>,
    /// Warnings that occured during last reconcile.
    pub warning: Option<String>,
}

/// The mathematical view of [`ReplacedServiceResourceStatus`].
#[verifier::ext_equal]
pub struct ReplacedServiceResourceStatusView {
    pub active: Option<bool>,
    pub tailscale_hostname: Option<Seq<char>>,
    pub replaced_deployment: Option<Seq<char>>,
    pub warning: Option<Seq<char>>,
}

impl View for ReplacedServiceResourceStatus {
    type V = ReplacedServiceResourceStatusView;

    open spec fn view(&self) -> ReplacedServiceResourceStatusView {
        ReplacedServiceResourceStatusView {
            active: self.active,
            tailscale_hostname: self.tailscale_hostname.deep_view(),
            replaced_deployment: self.replaced_deployment.deep_view(),
            warning: self.warning.deep_view(),
        }
    }
}

impl DeepView for ReplacedServiceResourceStatus {
    type V = ReplacedServiceResourceStatusView;

    open spec fn deep_view(&self) -> ReplacedServiceResourceStatusView {
        self.view()
    }
}

/// A request to replace a service, with what is known of its state.
#[derive(Debug, PartialEq)]
pub struct ReplacedService {
    pub metadata: ObjectMeta,
    pub spec: ReplacedServiceSpec,
    pub status: Option<ReplacedServiceResourceStatus>,
}

/// The mathematical view of [`ReplacedService`].
#[verifier::ext_equal]
pub struct ReplacedServiceView {
    pub metadata: ObjectMetaView,
    pub spec: ReplacedServiceSpecView,
    pub status: Option<ReplacedServiceResourceStatusView>,
}

impl View for ReplacedService {
    type V = ReplacedServiceView;

    open spec fn view(&self) -> ReplacedServiceView {
        ReplacedServiceView {
            metadata: self.metadata@,
            spec: self.spec@,
            status: self.status.deep_view(),
        }
    }
}

impl DeepView for ReplacedService {
    type V = ReplacedServiceView;

    open spec fn deep_view(&self) -> ReplacedServiceView {
        self.view()
    }
}

/// Copies a list of texts.
pub fn copy_texts(texts: &Vec<String>) -> (copy: Vec<String>)
    ensures
        copy.deep_view() == texts.deep_view(),
{
    let mut copy: Vec<String> = Vec::new();
    let len: usize = texts.len();
    for i in 0..len
        invariant
            len == texts.len(),
            copy.deep_view() == texts.deep_view().take(i as int),
    {
        let ghost copied = copy.deep_view();
        copy.push(texts[i].clone());
        proof {
            assert(copy.deep_view() =~= copied.push(texts.deep_view()[i as int]));
            assert(copy.deep_view() =~= texts.deep_view().take(i + 1));
        }
    }
    proof {
        assert(copy.deep_view() =~= texts.deep_view());
    }
    copy
}

/// Copies a list of port mappings.
fn copy_mappings(mappings: &Vec<ServicePortMapping>) -> (copy: Vec<ServicePortMapping>)
    ensures
        copy@ == mappings@,
{
    let mut copy: Vec<ServicePortMapping> = Vec::new();
    let len: usize = mappings.len();
    for i in 0..len
        invariant
            len == mappings.len(),
            copy@ == mappings@.take(i as int),
    {
        copy.push(mappings[i]);
        proof {
            assert(copy@ =~= mappings@.take(i + 1));
        }
    }
    proof {
        assert(copy@ =~= mappings@);
    }
    copy
}

/// Copies a text that may be absent.
pub fn copy_text(text: &Option<String>) -> (copy: Option<String>)
    ensures
        copy.deep_view() == text.deep_view(),
{
    match text {
        Some(text) => Some(text.clone()),
        None => None,
    }
}

impl Clone for ReplacedServiceResourceStatus {
    fn clone(&self) -> (copy: ReplacedServiceResourceStatus)
        ensures
            copy@ == self@,
    {
        ReplacedServiceResourceStatus {
            active: self.active,
            tailscale_hostname: copy_text(&self.tailscale_hostname),
            replaced_deployment: copy_text(&self.replaced_deployment),
            warning: copy_text(&self.warning),
        }
    }
}

impl Clone for ReplacedServiceSpec {
    fn clone(&self) -> (copy: ReplacedServiceSpec)
        ensures
            copy@ == self@,
    {
        ReplacedServiceSpec {
            service_to_replace: self.service_to_replace.clone(),
            ports: copy_mappings(&self.ports),
            node_selector: match &self.node_selector {
                Some(selector) => Some(selector.clone()),
                None => None,
            },
            health_endpoint: copy_text(&self.health_endpoint),
            health_test_protocol: self.health_test_protocol,
            ignore_certificate_errors: self.ignore_certificate_errors,
            tailscale_host_name: self.tailscale_host_name.clone(),
            tailscale_tags: copy_texts(&self.tailscale_tags),
            service_account: self.service_account.clone(),
            proxy_state_secret_name: self.proxy_state_secret_name.clone(),
        }
    }
}

impl ReplacedServiceSpecView {
    /// The name of the service through which the proxy is tested.
    pub open spec fn test_service_name(self) -> Seq<char> {
        self.service_to_replace + "-proxy"@
    }

    /// The name under which the original service is kept.
    pub open spec fn backup_service_name(self) -> Seq<char> {
        backup_name(self.service_to_replace)
    }
}

/// The name under which a service is kept while it is replaced.
pub open spec fn backup_name(service: Seq<char>) -> Seq<char> {
    service + "-proxy-backup"@
}

/// The name under which a service is kept while it is replaced.
pub fn backup_service_name(service: &String) -> (name: String)
    ensures
        name@ == backup_name(service@),
{
    service.clone().concat("-proxy-backup")
}

/// The service, the service the proxy is tested through and the backup have three
/// different names.
pub proof fn service_names_differ(spec: ReplacedServiceSpecView)
    ensures
        spec.test_service_name() != spec.service_to_replace,
        spec.backup_service_name() != spec.service_to_replace,
        spec.backup_service_name() != spec.test_service_name(),
{
    reveal_strlit("-proxy");
    reveal_strlit("-proxy-backup");
    assert(spec.test_service_name().len() == spec.service_to_replace.len() + 6);
    assert(spec.backup_service_name().len() == spec.service_to_replace.len() + 13);
}

impl ReplacedServiceSpec {
    /// The name of the service through which the proxy is tested.
    pub fn test_service_name(&self) -> (name: String)
        ensures
            name@ == self@.test_service_name(),
    {
        self.service_to_replace.clone().concat("-proxy")
    }
}

impl ReplacedServiceResourceStatusView {
    /// A status that reports nothing.
    pub open spec fn empty() -> ReplacedServiceResourceStatusView {
        ReplacedServiceResourceStatusView {
            active: None,
            tailscale_hostname: None,
            replaced_deployment: None,
            warning: None,
        }
    }
}

impl Default for ReplacedServiceResourceStatus {
    fn default() -> (status: ReplacedServiceResourceStatus)
        ensures
            status@ == ReplacedServiceResourceStatusView::empty(),
    {
        ReplacedServiceResourceStatus {
            active: None,
            tailscale_hostname: None,
            replaced_deployment: None,
            warning: None,
        }
    }
}

impl ReplacedServiceView {
    /// The status, or one that reports nothing where there is none.
    pub open spec fn reported(self) -> ReplacedServiceResourceStatusView {
        match self.status {
            Some(status) => status,
            None => ReplacedServiceResourceStatusView::empty(),
        }
    }

    /// The same resource, reported as active or not.
    pub open spec fn with_active(self, active: bool) -> ReplacedServiceView {
        ReplacedServiceView {
            status: Some(
                ReplacedServiceResourceStatusView { active: Some(active), ..self.reported() },
            ),
            ..self
        }
    }

    /// The same resource with a warning in place of the one it had.
    pub open spec fn with_warning(self, message: Seq<char>) -> ReplacedServiceView {
        ReplacedServiceView {
            status: Some(
                ReplacedServiceResourceStatusView { warning: Some(message), ..self.reported() },
            ),
            ..self
        }
    }

    /// The same resource without a warning. One without a status stays without one.
    pub open spec fn without_warning(self) -> ReplacedServiceView {
        ReplacedServiceView {
            status: match self.status {
                Some(status) => Some(
                    ReplacedServiceResourceStatusView { warning: None, ..status },
                ),
                None => None,
            },
            ..self
        }
    }

    /// The same resource with the deployment that it replaces on record.
    pub open spec fn with_deployment(self, name: Seq<char>) -> ReplacedServiceView {
        ReplacedServiceView {
            status: Some(
                ReplacedServiceResourceStatusView {
                    replaced_deployment: Some(name),
                    ..self.reported()
                },
            ),
            ..self
        }
    }

    /// The deployment on record.
    pub open spec fn recorded_deployment(self) -> Option<Seq<char>> {
        self.reported().replaced_deployment
    }

    /// The reference by which this resource owns other objects, as one owner among
    /// others. A resource without a name or a uid has none.
    pub open spec fn owner_reference(self) -> Option<OwnerReferenceView> {
        match (self.metadata.name, self.metadata.uid) {
            (Some(name), Some(uid)) => Some(
                OwnerReferenceView {
                    api_version: "tsproxy.digizuite.com/v1alpha1"@,
                    block_owner_deletion: None,
                    controller: Some(false),
                    kind: "ReplacedService"@,
                    name,
                    uid,
                },
            ),
            _ => None,
        }
    }
}

impl ReplacedService {
    fn into_reported(
        status: Option<ReplacedServiceResourceStatus>,
    ) -> (reported: ReplacedServiceResourceStatus)
        ensures
            reported@ == (match status.deep_view() {
                Some(status) => status,
                None => ReplacedServiceResourceStatusView::empty(),
            }),
            status is Some ==> reported == status->0,
    {
        match status {
            Some(status) => status,
            None => ReplacedServiceResourceStatus::default(),
        }
    }

    /// Reports the service as active or not.
    pub fn set_active(self, active: bool) -> (resource: ReplacedService)
        ensures
            resource@ == self@.with_active(active),
            resource.metadata == self.metadata,
            resource.spec == self.spec,
            resource.status is Some,
            resource.status->0.active == Some(active),
            self.status is Some ==> resource.status->0 == (ReplacedServiceResourceStatus {
                active: Some(active),
                ..self.status->0
            }),
    {
        let mut status = ReplacedService::into_reported(self.status);
        status.active = Some(active);
        ReplacedService { metadata: self.metadata, spec: self.spec, status: Some(status) }
    }

    /// Reports a warning.
    pub fn set_warning(self, message: String) -> (resource: ReplacedService)
        ensures
            resource@ == self@.with_warning(message@),
            resource.metadata == self.metadata,
            resource.spec == self.spec,
            resource.status is Some,
            resource.status->0.warning == Some(message),
            self.status is Some ==> resource.status->0 == (ReplacedServiceResourceStatus {
                warning: Some(message),
                ..self.status->0
            }),
    {
        let mut status = ReplacedService::into_reported(self.status);
        status.warning = Some(message);
        ReplacedService { metadata: self.metadata, spec: self.spec, status: Some(status) }
    }

    /// Takes a warning back.
    pub fn clear_warning(self) -> (resource: ReplacedService)
        ensures
            resource@ == self@.without_warning(),
            resource.metadata == self.metadata,
            resource.spec == self.spec,
            self.status is None ==> resource.status is None,
            self.status is Some ==> resource.status == Some(
                ReplacedServiceResourceStatus { warning: None, ..self.status->0 },
            ),
    {
        let status = match self.status {
            Some(status) => {
                let mut status = status;
                status.warning = None;
                Some(status)
            },
            None => None,
        };
        ReplacedService { metadata: self.metadata, spec: self.spec, status }
    }

    /// Puts the deployment that is replaced on record.
    pub fn set_deployment(self, name: String) -> (resource: ReplacedService)
        ensures
            resource@ == self@.with_deployment(name@),
            resource.metadata == self.metadata,
            resource.spec == self.spec,
            resource.status is Some,
            resource.status->0.replaced_deployment == Some(name),
            self.status is Some ==> resource.status->0 == (ReplacedServiceResourceStatus {
                replaced_deployment: Some(name),
                ..self.status->0
            }),
    {
        let mut status = ReplacedService::into_reported(self.status);
        status.replaced_deployment = Some(name);
        ReplacedService { metadata: self.metadata, spec: self.spec, status: Some(status) }
    }

    /// The deployment on record.
    pub fn recorded_deployment(&self) -> (name: Option<String>)
        ensures
            name.deep_view() == self@.recorded_deployment(),
            self.status is Some ==> name.deep_view()
                == self.status->0.replaced_deployment.deep_view(),
            self.status is None ==> name is None,
    {
        match &self.status {
            Some(status) => copy_text(&status.replaced_deployment),
            None => None,
        }
    }

    /// The reference by which this resource owns other objects.
    pub fn owner_reference(&self) -> (owner: Option<OwnerReference>)
        ensures
            owner.deep_view() == self@.owner_reference(),
    {
        match (&self.metadata.name, &self.metadata.uid) {
            (Some(name), Some(uid)) => Some(
                OwnerReference {
                    api_version: "tsproxy.digizuite.com/v1alpha1".to_string(),
                    block_owner_deletion: None,
                    controller: Some(false),
                    kind: "ReplacedService".to_string(),
                    name: name.clone(),
                    uid: uid.clone(),
                },
            ),
            _ => None,
        }
    }
}

/// Each report changes one entry of the status, and nothing else of the resource.
pub proof fn reports_are_independent(
    resource: ReplacedServiceView,
    active: bool,
    message: Seq<char>,
    deployment: Seq<char>,
)
    ensures
        resource.with_active(active).reported() == (ReplacedServiceResourceStatusView {
            active: Some(active),
            ..resource.reported()
        }),
        resource.with_warning(message).reported() == (ReplacedServiceResourceStatusView {
            warning: Some(message),
            ..resource.reported()
        }),
        resource.without_warning().reported() == (ReplacedServiceResourceStatusView {
            warning: None,
            ..resource.reported()
        }),
        resource.with_deployment(deployment).reported() == (ReplacedServiceResourceStatusView {
            replaced_deployment: Some(deployment),
            ..resource.reported()
        }),
        resource.with_active(active).spec == resource.spec,
        resource.with_warning(message).spec == resource.spec,
        resource.without_warning().spec == resource.spec,
        resource.with_deployment(deployment).spec == resource.spec,
        resource.with_active(active).metadata == resource.metadata,
        resource.with_warning(message).metadata == resource.metadata,
        resource.without_warning().metadata == resource.metadata,
        resource.with_deployment(deployment).metadata == resource.metadata,
{
}

/// Taking a warning back undoes it: what is left is the resource without any warning.
pub proof fn clearing_undoes_a_warning(resource: ReplacedServiceView, message: Seq<char>)
    ensures
        resource.with_warning(message).without_warning().reported()
            == resource.without_warning().reported(),
        resource.without_warning().reported().warning is None,
        resource.status is Some ==> resource.with_warning(message).without_warning()
            == resource.without_warning(),
{
}

/// The names of the test service and of the backup are the name of the service with a
/// suffix of their own, so that no two services share one.
pub proof fn names_extend_the_service(spec: ReplacedServiceSpecView, other: Seq<char>)
    ensures
        spec.test_service_name().take(spec.service_to_replace.len() as int)
            == spec.service_to_replace,
        spec.test_service_name().skip(spec.service_to_replace.len() as int) == "-proxy"@,
        spec.backup_service_name().take(spec.service_to_replace.len() as int)
            == spec.service_to_replace,
        spec.backup_service_name().skip(spec.service_to_replace.len() as int)
            == "-proxy-backup"@,
        spec.backup_service_name() == backup_name(spec.service_to_replace),
        backup_name(other) == spec.backup_service_name() ==> other == spec.service_to_replace,
{
    let service = spec.service_to_replace;
    let len = service.len() as int;
    assert(spec.test_service_name().take(len) =~= service);
    assert(spec.test_service_name().skip(len) =~= "-proxy"@);
    assert(spec.backup_service_name().take(len) =~= service);
    assert(spec.backup_service_name().skip(len) =~= "-proxy-backup"@);
    if backup_name(other) == spec.backup_service_name() {
        assert(backup_name(other).len() == other.len() + "-proxy-backup"@.len());
        assert(backup_name(other).take(len) =~= other);
    }
}

/// The deployment on record is the one that the status names, whatever else the status
/// says; without a status there is none.
pub proof fn record_is_what_the_status_names(resource: ReplacedServiceView)
    ensures
        resource.status is Some ==> resource.recorded_deployment()
            == resource.status->0.replaced_deployment,
        resource.status is None ==> resource.recorded_deployment() is None,
{
}

/// What is put on record is what is read from there, whatever else is reported before or
/// after.
pub proof fn record_outlasts_other_reports(
    resource: ReplacedServiceView,
    name: Seq<char>,
    active: bool,
    message: Seq<char>,
)
    ensures
        resource.with_deployment(name).recorded_deployment() == Some(name),
        resource.with_active(active).recorded_deployment() == resource.recorded_deployment(),
        resource.with_warning(message).recorded_deployment() == resource.recorded_deployment(),
        resource.without_warning().recorded_deployment() == resource.recorded_deployment(),
{
}

/// A report on a resource with a status writes its own entry and keeps every other; on one
/// without a status it writes its own entry alone. Taking a warning off makes no status.
pub proof fn reports_write_their_own_entry(
    resource: ReplacedServiceView,
    active: bool,
    message: Seq<char>,
    name: Seq<char>,
)
    ensures
        resource.with_active(active).status is Some,
        resource.with_active(active).status->0.active == Some(active),
        resource.with_warning(message).status is Some,
        resource.with_warning(message).status->0.warning == Some(message),
        resource.with_deployment(name).status is Some,
        resource.with_deployment(name).status->0.replaced_deployment == Some(name),
        resource.status is Some ==> {
            let status = resource.status->0;
            &&& (ReplacedServiceResourceStatusView {
                active: status.active,
                ..resource.with_active(active).status->0
            }) == status
            &&& (ReplacedServiceResourceStatusView {
                warning: status.warning,
                ..resource.with_warning(message).status->0
            }) == status
            &&& (ReplacedServiceResourceStatusView {
                replaced_deployment: status.replaced_deployment,
                ..resource.with_deployment(name).status->0
            }) == status
            &&& resource.without_warning().status is Some
            &&& resource.without_warning().status->0.warning is None
            &&& (ReplacedServiceResourceStatusView {
                warning: status.warning,
                ..resource.without_warning().status->0
            }) == status
        },
        resource.status is None ==> {
            let reported = resource.with_active(active).status->0;
            let warned = resource.with_warning(message).status->0;
            let recorded = resource.with_deployment(name).status->0;
            &&& resource.without_warning().status is None
            &&& reported.tailscale_hostname is None && reported.replaced_deployment is None
                && reported.warning is None
            &&& warned.tailscale_hostname is None && warned.replaced_deployment is None
                && warned.active is None
            &&& recorded.tailscale_hostname is None && recorded.warning is None
                && recorded.active is None
        },
{
}

/// A resource can own other objects if and only if it has a name and a uid. It owns them
/// under these, as a resource of this operator's kind, and never as their controller.
pub proof fn owners_carry_name_and_uid(resource: ReplacedServiceView)
    ensures
        resource.owner_reference() is Some <==> resource.metadata.name is Some
            && resource.metadata.uid is Some,
        resource.owner_reference() matches Some(owner) ==> {
            &&& Some(owner.name) == resource.metadata.name
            &&& Some(owner.uid) == resource.metadata.uid
            &&& owner.kind == "ReplacedService"@
            &&& owner.api_version == "tsproxy.digizuite.com/v1alpha1"@
            &&& owner.controller == Some(false)
            &&& owner.block_owner_deletion is None
        },
{
}

/// What a resource asks for is understood as it is written: every mapping and every tag, in
/// their order, and every setting.
pub proof fn requests_read_as_written(spec: ReplacedServiceSpec)
    ensures
        spec@.service_to_replace == spec.service_to_replace@,
        spec@.ports.len() == spec.ports.len(),
        forall|i: int| 0 <= i < spec.ports.len() ==> #[trigger] spec@.ports[i] == spec.ports[i],
        spec@.tailscale_tags.len() == spec.tailscale_tags.len(),
        forall|i: int|
            0 <= i < spec.tailscale_tags.len() ==> #[trigger] spec@.tailscale_tags[i]
                == spec.tailscale_tags[i]@,
        spec@.node_selector is Some <==> spec.node_selector is Some,
        spec.node_selector is Some ==> spec@.node_selector->0 == spec.node_selector->0@,
        spec@.health_endpoint is Some <==> spec.health_endpoint is Some,
        spec.health_endpoint is Some ==> spec@.health_endpoint->0 == spec.health_endpoint->0@,
        spec@.health_test_protocol == spec.health_test_protocol,
        spec@.ignore_certificate_errors == spec.ignore_certificate_errors,
        spec@.tailscale_host_name == spec.tailscale_host_name@,
        spec@.service_account == spec.service_account@,
        spec@.proxy_state_secret_name == spec.proxy_state_secret_name@,
{
}

/// A status is understood as it is written, entry by entry, and so is a resource.
pub proof fn reports_read_as_written(resource: ReplacedService)
    ensures
        resource@.metadata == resource.metadata@,
        resource@.spec == resource.spec@,
        resource@.status is Some <==> resource.status is Some,
        resource.status is Some ==> {
            let status = resource.status->0;
            let read = resource@.status->0;
            &&& read.active == status.active
            &&& read.tailscale_hostname is Some <==> status.tailscale_hostname is Some
            &&& status.tailscale_hostname is Some ==> read.tailscale_hostname->0
                == status.tailscale_hostname->0@
            &&& read.replaced_deployment is Some <==> status.replaced_deployment is Some
            &&& status.replaced_deployment is Some ==> read.replaced_deployment->0
                == status.replaced_deployment->0@
            &&& read.warning is Some <==> status.warning is Some
            &&& status.warning is Some ==> read.warning->0 == status.warning->0@
        },
{
}

} // verus!
