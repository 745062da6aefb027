//! What a reconcile asks the outside world to do, and what it hears back.

use crate::deployment::{
    Deployment, DeploymentView, ProxyDeployment, ProxyDeploymentView, Secret, SecretView,
};
use crate::endpoints::{Endpoints, EndpointsView};
use crate::error::Error;
use crate::meta::{ObjectMeta, ObjectMetaView};
use crate::replaced_service::{ReplacedService, ReplacedServiceView};
use crate::service::{Service, ServiceView};
use vstd::prelude::*;
use vstd::string::*;

verus! {

/// The kinds of objects that a finalizer is removed from.
#[derive(Debug, Clone, Copy, PartialEq, Eq, Structural)]
pub enum Finalized {
    ReplacedService,
    Service,
}

/// One thing for the outside world to do. Objects are applied server side, by force.
#[derive(Debug)]
pub enum Action {
    /// Look for a replaced service.
    GetResource { namespace: String, name: String },
    /// Merge a replaced service into its status.
    PatchStatus { namespace: String, name: String, resource: ReplacedService },
    /// Put the finalizer of the operator on a replaced service.
    EnsureFinalizer { resource: ReplacedService },
    /// Take the finalizer of the operator off an object.
    RemoveFinalizer { kind: Finalized, namespace: String, name: String },
    /// Look for a service.
    GetService { namespace: String, name: String },
    /// Get a service that must exist.
    FetchService { namespace: String, name: String },
    /// Apply a service.
    ApplyService { namespace: String, name: String, service: Service },
    /// Delete a service.
    DeleteService { namespace: String, name: String },
    /// Look for a deployment.
    GetDeployment { namespace: String, name: String },
    /// Apply a deployment that was found.
    ApplyDeployment { namespace: String, name: String, deployment: Deployment },
    /// Apply the deployment of the proxy where there is none.
    CreateProxyDeployment { namespace: String, name: String, proxy: ProxyDeployment },
    /// Get the endpoints of a service.
    FetchEndpoints { namespace: String, name: String },
    /// Get the metadata of a pod.
    FetchPod { namespace: String, name: String },
    /// Get the metadata of a replica set.
    FetchReplicaSet { namespace: String, name: String },
    /// Get the metadata of a deployment.
    FetchDeployment { namespace: String, name: String },
    /// See whether a secret exists.
    GetSecret { namespace: String, name: String },
    /// Create an auth key for a machine with these tags.
    CreateAuthToken { tags: Vec<String> },
    /// Apply a secret.
    ApplySecret { namespace: String, name: String, secret: Secret },
    /// Request an address and see how it answers.
    TestUrl { url: String, ignore_certificate_errors: bool },
}

/// The mathematical view of [`Action`].
#[verifier::ext_equal]
pub enum ActionView {
    GetResource { namespace: Seq<char>, name: Seq<char> },
    PatchStatus { namespace: Seq<char>, name: Seq<char>, resource: ReplacedServiceView },
    EnsureFinalizer { resource: ReplacedServiceView },
    RemoveFinalizer { kind: Finalized, namespace: Seq<char>, name: Seq<char> },
    GetService { namespace: Seq<char>, name: Seq<char> },
    FetchService { namespace: Seq<char>, name: Seq<char> },
    ApplyService { namespace: Seq<char>, name: Seq<char>, service: ServiceView },
    DeleteService { namespace: Seq<char>, name: Seq<char> },
    GetDeployment { namespace: Seq<char>, name: Seq<char> },
    ApplyDeployment { namespace: Seq<char>, name: Seq<char>, deployment: DeploymentView },
    CreateProxyDeployment { namespace: Seq<char>, name: Seq<char>, proxy: ProxyDeploymentView },
    FetchEndpoints { namespace: Seq<char>, name: Seq<char> },
    FetchPod { namespace: Seq<char>, name: Seq<char> },
    FetchReplicaSet { namespace: Seq<char>, name: Seq<char> },
    FetchDeployment { namespace: Seq<char>, name: Seq<char> },
    GetSecret { namespace: Seq<char>, name: Seq<char> },
    CreateAuthToken { tags: Seq<Seq<char>> },
    ApplySecret { namespace: Seq<char>, name: Seq<char>, secret: SecretView },
    TestUrl { url: Seq<char>, ignore_certificate_errors: bool },
}

impl View for Action {
    type V = ActionView;

    open spec fn view(&self) -> ActionView {
        match self {
            Action::GetResource { namespace, name } => ActionView::GetResource {
                namespace: namespace@,
                name: name@,
            },
            Action::PatchStatus { namespace, name, resource } => ActionView::PatchStatus {
                namespace: namespace@,
                name: name@,
                resource: resource@,
            },
            Action::EnsureFinalizer { resource } => ActionView::EnsureFinalizer {
                resource: resource@,
            },
            Action::RemoveFinalizer { kind, namespace, name } => ActionView::RemoveFinalizer {
                kind: *kind,
                namespace: namespace@,
                name: name@,
            },
            Action::GetService { namespace, name } => ActionView::GetService {
                namespace: namespace@,
                name: name@,
            },
            Action::FetchService { namespace, name } => ActionView::FetchService {
                namespace: namespace@,
                name: name@,
            },
            Action::ApplyService { namespace, name, service } => ActionView::ApplyService {
                namespace: namespace@,
                name: name@,
                service: service@,
            },
            Action::DeleteService { namespace, name } => ActionView::DeleteService {
                namespace: namespace@,
                name: name@,
            },
            Action::GetDeployment { namespace, name } => ActionView::GetDeployment {
                namespace: namespace@,
                name: name@,
            },
            Action::ApplyDeployment { namespace, name, deployment } => ActionView::ApplyDeployment {
                namespace: namespace@,
                name: name@,
                deployment: deployment@,
            },
            Action::CreateProxyDeployment { namespace, name, proxy } => ActionView::CreateProxyDeployment {
                namespace: namespace@,
                name: name@,
                proxy: proxy@,
            },
            Action::FetchEndpoints { namespace, name } => ActionView::FetchEndpoints {
                namespace: namespace@,
                name: name@,
            },
            Action::FetchPod { namespace, name } => ActionView::FetchPod {
                namespace: namespace@,
                name: name@,
            },
            Action::FetchReplicaSet { namespace, name } => ActionView::FetchReplicaSet {
                namespace: namespace@,
                name: name@,
            },
            Action::FetchDeployment { namespace, name } => ActionView::FetchDeployment {
                namespace: namespace@,
                name: name@,
            },
            Action::GetSecret { namespace, name } => ActionView::GetSecret {
                namespace: namespace@,
                name: name@,
            },
            Action::CreateAuthToken { tags } => ActionView::CreateAuthToken {
                tags: tags.deep_view(),
            },
            Action::ApplySecret { namespace, name, secret } => ActionView::ApplySecret {
                namespace: namespace@,
                name: name@,
                secret: secret@,
            },
            Action::TestUrl { url, ignore_certificate_errors } => ActionView::TestUrl {
                url: url@,
                ignore_certificate_errors: *ignore_certificate_errors,
            },
        }
    }
}

impl DeepView for Action {
    type V = ActionView;

    open spec fn deep_view(&self) -> ActionView {
        self.view()
    }
}

/// What comes back from an action.
#[derive(Debug)]
pub enum Event {
    /// The action failed. A test that finds no answer is no failure in this sense.
    Failed(Error),
    /// A replaced service was looked for.
    ResourceFound(Option<ReplacedService>),
    /// The finalizer is on the replaced service, which now reads so.
    ResourceEnsured(ReplacedService),
    /// A service was looked for.
    ServiceFound(Option<Service>),
    /// A service that must exist was found.
    ServiceFetched(Service),
    /// A service was applied, and now reads so.
    ServiceApplied(Service),
    /// A deployment was looked for.
    DeploymentFound(Option<Deployment>),
    /// The endpoints were found.
    EndpointsFetched(Endpoints),
    /// The pod, replica set or deployment was found.
    MetadataFetched(ObjectMeta),
    /// Whether the secret exists.
    SecretFound(bool),
    /// The auth key was created.
    AuthKeyCreated(String),
    /// The address answered with this status.
    Answered(u16),
    /// The address did not answer, for this reason.
    Unanswered(String),
    /// The action was done, and nothing is to be said of it.
    Done,
}

/// The mathematical view of [`Event`].
#[verifier::ext_equal]
pub enum EventView {
    Failed(Seq<char>),
    ResourceFound(Option<ReplacedServiceView>),
    ResourceEnsured(ReplacedServiceView),
    ServiceFound(Option<ServiceView>),
    ServiceFetched(ServiceView),
    ServiceApplied(ServiceView),
    DeploymentFound(Option<DeploymentView>),
    EndpointsFetched(EndpointsView),
    MetadataFetched(ObjectMetaView),
    SecretFound(bool),
    AuthKeyCreated(Seq<char>),
    Answered(u16),
    Unanswered(Seq<char>),
    Done,
}

impl View for Event {
    type V = EventView;

    open spec fn view(&self) -> EventView {
        match self {
            Event::Failed(value) => EventView::Failed(value@),
            Event::ResourceFound(value) => EventView::ResourceFound(value.deep_view()),
            Event::ResourceEnsured(value) => EventView::ResourceEnsured(value@),
            Event::ServiceFound(value) => EventView::ServiceFound(value.deep_view()),
            Event::ServiceFetched(value) => EventView::ServiceFetched(value@),
            Event::ServiceApplied(value) => EventView::ServiceApplied(value@),
            Event::DeploymentFound(value) => EventView::DeploymentFound(value.deep_view()),
            Event::EndpointsFetched(value) => EventView::EndpointsFetched(value@),
            Event::MetadataFetched(value) => EventView::MetadataFetched(value@),
            Event::SecretFound(value) => EventView::SecretFound(*value),
            Event::AuthKeyCreated(value) => EventView::AuthKeyCreated(value@),
            Event::Answered(value) => EventView::Answered(*value),
            Event::Unanswered(value) => EventView::Unanswered(value@),
            Event::Done => EventView::Done,
        }
    }
}

impl DeepView for Event {
    type V = EventView;

    open spec fn deep_view(&self) -> EventView {
        self.view()
    }
}

/// The name under which objects are applied.
pub fn field_manager() -> (name: String)
    ensures
        name@ == "tsproxy-operator"@,
{
    "tsproxy-operator".to_string()
}

impl ServiceView {
    /// Applying this service. The service must have a name and a namespace.
    pub open spec fn apply(self) -> ActionView {
        ActionView::ApplyService {
            namespace: self.metadata.namespace->0,
            name: self.metadata.name->0,
            service: ServiceView { metadata: self.metadata.unmanaged(), ..self },
        }
    }
}

impl Service {
    /// Applies this service.
    pub fn do_server_side_apply(self) -> (action: Action)
        requires
            self@.metadata.namespace is Some,
            self@.metadata.name is Some,
        ensures
            action@ == self@.apply(),
            action is ApplyService,
            action->service.spec == self.spec,
            action->service.status == self.status,
    {
        let mut service = self;
        service.metadata.managed_fields = None;
        let namespace = take_text(&service.metadata.namespace);
        let name = take_text(&service.metadata.name);
        Action::ApplyService { namespace, name, service }
    }
}

impl DeploymentView {
    /// Applying this deployment. The deployment must have a name and a namespace.
    pub open spec fn apply(self) -> ActionView {
        ActionView::ApplyDeployment {
            namespace: self.metadata.namespace->0,
            name: self.metadata.name->0,
            deployment: DeploymentView { metadata: self.metadata.unmanaged(), ..self },
        }
    }

    /// The deployment has the name and the namespace that applying it needs.
    pub open spec fn addressable(self) -> bool {
        self.metadata.namespace is Some && self.metadata.name is Some
    }
}

impl Deployment {
    /// Applies this deployment.
    pub fn do_server_side_apply(self) -> (action: Action)
        requires
            self@.addressable(),
        ensures
            action@ == self@.apply(),
            action is ApplyDeployment,
            action->deployment.spec == self.spec,
            action->deployment.status == self.status,
    {
        let mut deployment = self;
        deployment.metadata.managed_fields = None;
        let namespace = take_text(&deployment.metadata.namespace);
        let name = take_text(&deployment.metadata.name);
        Action::ApplyDeployment { namespace, name, deployment }
    }
}

/// A text that is known to be there.
pub fn take_text(text: &Option<String>) -> (copy: String)
    requires
        text is Some,
    ensures
        copy@ == text->0@,
{
    match text {
        Some(text) => text.clone(),
        None => String::new(),
    }
}

/// An object is applied under its own name and in its own namespace, as it is, but for the
/// record of who manages which field.
pub proof fn objects_are_applied_as_they_are(service: ServiceView, deployment: DeploymentView)
    ensures
        service.metadata.namespace is Some && service.metadata.name is Some
            ==> service.apply() is ApplyService && Some(service.apply()->ApplyService_namespace)
            == service.metadata.namespace && Some(service.apply()->ApplyService_name)
            == service.metadata.name,
        service.apply()->service.spec == service.spec,
        service.apply()->service.status == service.status,
        service.apply()->service.metadata.managed_fields is None,
        (ObjectMetaView {
            managed_fields: service.metadata.managed_fields,
            ..service.apply()->service.metadata
        }) == service.metadata,
        deployment.metadata.namespace is Some && deployment.metadata.name is Some
            ==> deployment.apply() is ApplyDeployment && Some(
            deployment.apply()->ApplyDeployment_namespace,
        ) == deployment.metadata.namespace && Some(deployment.apply()->ApplyDeployment_name)
            == deployment.metadata.name,
        deployment.apply()->deployment.spec == deployment.spec,
        deployment.apply()->deployment.status == deployment.status,
        deployment.apply()->deployment.metadata.managed_fields is None,
        (ObjectMetaView {
            managed_fields: deployment.metadata.managed_fields,
            ..deployment.apply()->deployment.metadata
        }) == deployment.metadata,
        deployment.addressable() <==> deployment.metadata.namespace is Some
            && deployment.metadata.name is Some,
{
}

} // verus!
