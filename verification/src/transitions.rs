//! What a reconcile does after each event, as mathematics.

use crate::action::{ActionView, EventView, Finalized};
use crate::deployment::{
    auth_key_secret, proxy_deployment, proxy_deployment_name, DeploymentView,
};
use crate::endpoints::EndpointsView;
use crate::error::Requeue;
use crate::meta::ObjectMetaView;
use crate::port_map::{forwarded, lists, port_map};
use crate::probe::{answer_failure, ignores_certificates, silence_failure, test_url};
use crate::replaced_service::{
    backup_name, ReplacedServiceResourceStatusView, ReplacedServiceSpecView, ReplacedServiceView,
};
use crate::service::{offered_ports, port_numbers, proxy_service, service_copy, ServiceView};
use crate::step::{
    AfterScaleView, CandidateView, JobView, PlanView, ProgressView, PurposeView, ReconcilerView,
    RemovalView, StepView, TargetView,
};
use vstd::prelude::*;

verus! {

impl CandidateView {
    /// What is needed of the replaced service from here on: the resource as it reads now,
    /// but the service that it named when the reconcile began.
    pub open spec fn job(self) -> JobView {
        JobView {
            namespace: self.namespace,
            name: self.resource.metadata.name_any(),
            uid: self.uid,
            spec: ReplacedServiceSpecView {
                service_to_replace: self.service,
                ..self.resource.spec
            },
        }
    }
}

/// The transitions of a reconcile: each says what the machine does next.
impl TargetView {
    /// Wait for what comes of an action.
    pub open spec fn pending(self, step: StepView, action: ActionView) -> ProgressView {
        ProgressView::Pending(ReconcilerView { target: self, step }, action)
    }

    /// Say whether the service is active, then end.
    pub open spec fn settle(
        self,
        ready: bool,
        outcome: Result<Requeue, Seq<char>>,
    ) -> ProgressView {
        self.pending(
            StepView::Settle { ready, outcome },
            ActionView::GetResource { namespace: self.namespace, name: self.name },
        )
    }

    /// Put a warning on the replaced service, and try again in half a minute.
    pub open spec fn warn(
        self,
        namespace: Seq<char>,
        name: Seq<char>,
        message: Seq<char>,
    ) -> ProgressView {
        self.pending(
            StepView::Warn { namespace, message },
            ActionView::GetResource { namespace, name },
        )
    }

    /// Take any warning off the replaced service.
    pub open spec fn clear(self, job: JobView) -> ProgressView {
        self.pending(
            StepView::Clear,
            ActionView::GetResource { namespace: self.namespace, name: job.name },
        )
    }

    /// Let the replaced service go.
    pub open spec fn release(self) -> ProgressView {
        self.pending(
            StepView::RemovalRelease,
            ActionView::RemoveFinalizer {
                kind: Finalized::ReplacedService,
                namespace: self.namespace,
                name: self.name,
            },
        )
    }

    /// Scale a deployment if there is one.
    pub open spec fn scale(
        self,
        deployment: Seq<char>,
        replicas: i32,
        then: AfterScaleView,
    ) -> ProgressView {
        self.pending(
            StepView::Scale { replicas, then },
            ActionView::GetDeployment { namespace: self.namespace, name: deployment },
        )
    }

    /// A deployment is scaled, or there was none.
    pub open spec fn scaled(self, then: AfterScaleView) -> ProgressView {
        match then {
            AfterScaleView::Release => self.release(),
            AfterScaleView::Restore { plan, failure } => self.pending(
                StepView::RestoreBackup { plan, failure },
                ActionView::FetchService {
                    namespace: self.namespace,
                    name: plan.job.spec.backup_service_name(),
                },
            ),
            AfterScaleView::Finish { job } => self.clear(job),
        }
    }

    /// The original service stands again: scale its deployment up, then let go.
    pub open spec fn scale_for_removal(self, removal: RemovalView) -> ProgressView {
        match removal.deployment {
            Some(deployment) => self.scale(deployment, 1, AfterScaleView::Release),
            None => self.release(),
        }
    }

    /// The replaced service was looked for.
    pub open spec fn fetched(self, found: Option<ReplacedServiceView>) -> ProgressView {
        match found {
            None => self.settle(false, Ok(Requeue::AwaitChange)),
            Some(resource) => if resource.metadata.deletion_timestamp is Some {
                let removal = RemovalView {
                    service: resource.spec.service_to_replace,
                    deployment: resource.recorded_deployment(),
                };
                self.pending(
                    StepView::RemovalBackup { removal },
                    ActionView::GetService {
                        namespace: self.namespace,
                        name: backup_name(removal.service),
                    },
                )
            } else {
                self.pending(
                    StepView::Finalizer { service: resource.spec.service_to_replace },
                    ActionView::EnsureFinalizer { resource },
                )
            },
        }
    }

    /// Removal: the backup was looked for.
    pub open spec fn removal_backup(
        self,
        removal: RemovalView,
        found: Option<ServiceView>,
    ) -> ProgressView {
        match found {
            Some(backup) => self.pending(
                StepView::RemovalRestore { removal },
                service_copy(removal.service, backup).apply(),
            ),
            None => self.scale_for_removal(removal),
        }
    }

    /// Removal: the original service stands again.
    pub open spec fn removal_restored(self, removal: RemovalView) -> ProgressView {
        self.pending(
            StepView::RemovalUnlock { removal },
            ActionView::RemoveFinalizer {
                kind: Finalized::Service,
                namespace: self.namespace,
                name: backup_name(removal.service),
            },
        )
    }

    /// Removal: the operator no longer keeps the backup.
    pub open spec fn removal_unlocked(self, removal: RemovalView) -> ProgressView {
        self.pending(
            StepView::RemovalDelete { removal },
            ActionView::DeleteService {
                namespace: self.namespace,
                name: backup_name(removal.service),
            },
        )
    }

    /// The finalizer is on the replaced service: find the deployment behind the service.
    pub open spec fn ensured(
        self,
        service: Seq<char>,
        resource: ReplacedServiceView,
    ) -> ProgressView {
        match resource.metadata.uid {
            None => self.settle(false, Err("Resource does not have a uid assigned"@)),
            Some(uid) => {
                let candidate = CandidateView {
                    service,
                    resource,
                    namespace: resource.metadata.namespace->0,
                    uid,
                };
                match resource.recorded_deployment() {
                    Some(deployment) => self.deploy(
                        PlanView {
                            job: candidate.job(),
                            owner: resource.owner_reference()->0,
                            deployment,
                        },
                    ),
                    None => self.pending(
                        StepView::FindEndpoints { candidate },
                        ActionView::FetchEndpoints {
                            namespace: candidate.namespace,
                            name: resource.spec.service_to_replace,
                        },
                    ),
                }
            },
        }
    }

    /// The search for the deployment ends with a warning.
    pub open spec fn not_found(self, candidate: CandidateView, message: Seq<char>) -> ProgressView {
        self.warn(candidate.namespace, candidate.resource.metadata.name_any(), message)
    }

    /// The endpoints of the service were found.
    pub open spec fn endpoints_found(
        self,
        candidate: CandidateView,
        endpoints: EndpointsView,
    ) -> ProgressView {
        match endpoints.first_target() {
            None => self.not_found(candidate, "Service has no endpoints defined"@),
            Some(target) => if target.is_pod() {
                self.pending(
                    StepView::FindPod { candidate, pod: target.name->0 },
                    ActionView::FetchPod {
                        namespace: candidate.namespace,
                        name: target.name->0,
                    },
                )
            } else {
                let kind = match target.kind {
                    Some(kind) => kind,
                    None => Seq::empty(),
                };
                self.not_found(
                    candidate,
                    "Service does not point to a pod. Got "@ + kind + " instead"@,
                )
            },
        }
    }

    /// The pod behind the service was found.
    pub open spec fn pod_found(
        self,
        candidate: CandidateView,
        pod: Seq<char>,
        meta: ObjectMetaView,
    ) -> ProgressView {
        if meta.owners().len() > 0 {
            self.pending(
                StepView::FindReplicaSet { candidate },
                ActionView::FetchReplicaSet {
                    namespace: candidate.namespace,
                    name: meta.owners()[0].name,
                },
            )
        } else {
            self.not_found(candidate, "Pod "@ + pod + " does not have an owner reference"@)
        }
    }

    /// The replica set of the pod was found.
    pub open spec fn replica_set_found(
        self,
        candidate: CandidateView,
        meta: ObjectMetaView,
    ) -> ProgressView {
        if meta.owners().len() > 0 {
            self.pending(
                StepView::FindDeployment { candidate },
                ActionView::FetchDeployment {
                    namespace: candidate.namespace,
                    name: meta.owners()[0].name,
                },
            )
        } else {
            self.not_found(
                candidate,
                "Replica set "@ + meta.name->0 + " does not have an owner reference"@,
            )
        }
    }

    /// The deployment of the replica set was found: put it on record.
    pub open spec fn deployment_found(
        self,
        candidate: CandidateView,
        meta: ObjectMetaView,
    ) -> ProgressView {
        self.pending(
            StepView::FindRecord {
                job: candidate.job(),
                owner: candidate.resource.owner_reference(),
                deployment: meta.name->0,
            },
            ActionView::PatchStatus {
                namespace: candidate.namespace,
                name: candidate.resource.metadata.name_any(),
                resource: candidate.resource.with_deployment(meta.name->0),
            },
        )
    }

    /// The deployment is known: see to the proxy.
    pub open spec fn deploy(self, plan: PlanView) -> ProgressView {
        self.pending(
            StepView::Secret { plan },
            ActionView::GetSecret {
                namespace: plan.job.namespace,
                name: plan.job.spec.proxy_state_secret_name,
            },
        )
    }

    /// Whether the proxy has its secret is known.
    pub open spec fn secret_found(self, plan: PlanView, exists: bool) -> ProgressView {
        if exists {
            self.look_for_proxy(plan)
        } else {
            self.pending(
                StepView::AuthKey { plan },
                ActionView::CreateAuthToken { tags: plan.job.spec.tailscale_tags },
            )
        }
    }

    /// There is an auth key: hand it to the proxy in a secret.
    pub open spec fn auth_key_created(self, plan: PlanView, auth_key: Seq<char>) -> ProgressView {
        self.pending(
            StepView::SecretApplied { plan },
            ActionView::ApplySecret {
                namespace: plan.job.namespace,
                name: plan.job.spec.proxy_state_secret_name,
                secret: auth_key_secret(
                    plan.job.spec.proxy_state_secret_name,
                    plan.job.namespace,
                    plan.owner,
                    auth_key,
                ),
            },
        )
    }

    /// The proxy has its secret: look for its deployment.
    pub open spec fn look_for_proxy(self, plan: PlanView) -> ProgressView {
        self.pending(
            StepView::ProxyLookup { plan },
            ActionView::GetDeployment {
                namespace: plan.job.namespace,
                name: proxy_deployment_name(),
            },
        )
    }

    /// The deployment of the proxy was looked for.
    pub open spec fn proxy_found(
        self,
        plan: PlanView,
        found: Option<DeploymentView>,
    ) -> ProgressView {
        match found {
            Some(existing) => if existing.metadata.owned_by(plan.owner.uid) {
                self.look_for_original(plan)
            } else {
                self.pending(
                    StepView::ProxyApplied { plan },
                    existing.with_owner(plan.owner).apply(),
                )
            },
            None => self.pending(
                StepView::ProxyApplied { plan },
                ActionView::CreateProxyDeployment {
                    namespace: plan.job.namespace,
                    name: proxy_deployment_name(),
                    proxy: proxy_deployment(plan.job.namespace, plan.job.spec),
                },
            ),
        }
    }

    /// The proxy is deployed: look for the service to replace.
    pub open spec fn look_for_original(self, plan: PlanView) -> ProgressView {
        self.pending(
            StepView::Original { plan },
            ActionView::GetService {
                namespace: self.namespace,
                name: plan.job.spec.service_to_replace,
            },
        )
    }

    /// The service to replace was looked for.
    pub open spec fn original_found(
        self,
        plan: PlanView,
        found: Option<ServiceView>,
    ) -> ProgressView {
        match found {
            None => self.warn(
                self.namespace,
                plan.job.name,
                "Service "@ + plan.job.spec.service_to_replace + " was not found"@,
            ),
            Some(service) => if service.metadata.owned_by(plan.job.uid) {
                self.probe(plan, 0, PurposeView::Confirm)
            } else {
                self.pending(
                    StepView::Backup { plan, ports: port_numbers(service) },
                    service_copy(plan.job.spec.backup_service_name(), service).apply(),
                )
            },
        }
    }

    /// The backup stands: apply the service through which the proxy is tested. In which
    /// order its ports come is not fixed.
    pub open spec fn backed_up(
        self,
        plan: PlanView,
        ports: Seq<i32>,
        progress: ProgressView,
    ) -> bool {
        if ports.len() == 0 {
            progress == self.warn(self.namespace, plan.job.name, "Service has no ports defined"@)
        } else {
            match port_map(ports, plan.job.spec.ports) {
                Err(message) => progress == self.warn(self.namespace, plan.job.name, message),
                Ok(map) => exists|listing: Seq<(i32, i32)>|
                    lists(listing, map) && progress == self.pending(
                        StepView::TestService { plan },
                        proxy_service(
                            plan.job.spec.test_service_name(),
                            self.namespace,
                            plan.owner,
                            Some(#[trigger] forwarded(listing)),
                        ).apply(),
                    ),
            }
        }
    }

    /// The service for the tests stands: test the proxy.
    pub open spec fn test_service_applied(
        self,
        plan: PlanView,
        service: ServiceView,
    ) -> ProgressView {
        self.probe(plan, 0, PurposeView::Switch { ports: offered_ports(service) })
    }

    /// Test the ports of the proxy from this one on.
    pub open spec fn probe(self, plan: PlanView, index: nat, purpose: PurposeView) -> ProgressView {
        if index < plan.job.spec.ports.len() {
            self.pending(
                StepView::Probe { plan, index, purpose },
                ActionView::TestUrl {
                    url: test_url(
                        plan.job.spec,
                        plan.job.namespace,
                        plan.job.spec.ports[index as int].proxy_port,
                    ),
                    ignore_certificate_errors: ignores_certificates(plan.job.spec),
                },
            )
        } else {
            match purpose {
                PurposeView::Confirm => self.clear(plan.job),
                PurposeView::Switch { ports } => self.pending(
                    StepView::Switch { plan },
                    proxy_service(
                        plan.job.spec.service_to_replace,
                        self.namespace,
                        plan.owner,
                        ports,
                    ).apply(),
                ),
            }
        }
    }

    /// A port of the proxy does not work.
    pub open spec fn probe_failed(
        self,
        plan: PlanView,
        purpose: PurposeView,
        failure: Seq<char>,
    ) -> ProgressView {
        match purpose {
            PurposeView::Confirm => self.scale(
                plan.deployment,
                1,
                AfterScaleView::Restore { plan, failure },
            ),
            PurposeView::Switch { .. } => self.warn(
                self.namespace,
                plan.job.name,
                "Proxy service does not work, leaving service pointer as is: "@ + failure,
            ),
        }
    }

    /// A port of the proxy was tested.
    pub open spec fn probed(
        self,
        plan: PlanView,
        index: nat,
        purpose: PurposeView,
        event: EventView,
    ) -> ProgressView {
        match event {
            EventView::Answered(status) => match answer_failure(status) {
                None => self.probe(plan, index + 1, purpose),
                Some(failure) => self.probe_failed(plan, purpose, failure),
            },
            EventView::Unanswered(reason) => self.probe_failed(
                plan,
                purpose,
                silence_failure(reason),
            ),
            _ => arbitrary(),
        }
    }

    /// A deployment to scale was looked for.
    pub open spec fn scale_found(
        self,
        replicas: i32,
        then: AfterScaleView,
        found: Option<DeploymentView>,
    ) -> ProgressView {
        match found {
            Some(deployment) => self.pending(
                StepView::ScaleApplied { then },
                deployment.scaled(replicas).apply(),
            ),
            None => self.scaled(then),
        }
    }

    /// The backup was found: restore the original service from it.
    pub open spec fn restore(
        self,
        plan: PlanView,
        failure: Seq<char>,
        backup: ServiceView,
    ) -> ProgressView {
        self.pending(
            StepView::RestoreApply { plan, failure },
            service_copy(plan.job.spec.service_to_replace, backup).apply(),
        )
    }

    /// The original service stands again.
    pub open spec fn restored(self, plan: PlanView, failure: Seq<char>) -> ProgressView {
        self.warn(
            self.namespace,
            plan.job.name,
            "Proxy service does not work, returning original service pointer: "@ + failure,
        )
    }

    /// The replaced service was looked for, to put a warning on it.
    pub open spec fn warned(
        self,
        namespace: Seq<char>,
        message: Seq<char>,
        found: Option<ReplacedServiceView>,
    ) -> ProgressView {
        match found {
            Some(latest) => self.pending(
                StepView::WarnApplied,
                ActionView::PatchStatus {
                    namespace,
                    name: latest.metadata.name_any(),
                    resource: latest.with_warning(message),
                },
            ),
            None => self.settle(false, Ok(Requeue::After(30))),
        }
    }

    /// The replaced service was looked for, to take a warning off it.
    pub open spec fn cleared(self, found: Option<ReplacedServiceView>) -> ProgressView {
        match found {
            Some(latest) if latest.status is Some => self.pending(
                StepView::ClearApplied,
                ActionView::PatchStatus {
                    namespace: self.namespace,
                    name: latest.metadata.name_any(),
                    resource: latest.without_warning(),
                },
            ),
            _ => self.settle(true, Ok(Requeue::After(30))),
        }
    }

    /// The replaced service was looked for, to say whether it is active.
    pub open spec fn settled(
        self,
        ready: bool,
        outcome: Result<Requeue, Seq<char>>,
        found: Option<ReplacedServiceView>,
    ) -> ProgressView {
        match found {
            Some(latest) => self.pending(
                StepView::SettleApplied { outcome },
                ActionView::PatchStatus {
                    namespace: self.namespace,
                    name: self.name,
                    resource: latest.with_active(ready),
                },
            ),
            None => ProgressView::Finished(outcome),
        }
    }
}

/// How the reconcile of an announced resource begins.
pub open spec fn started(meta: ObjectMetaView) -> ProgressView {
    match meta.namespace {
        None => ProgressView::Finished(
            Err(
                "Expected SftpgoUser resource to be namespaced. Can't deploy to unknown namespace."@,
            ),
        ),
        Some(namespace) => TargetView { namespace, name: meta.name_any() }.pending(
            StepView::Fetch,
            ActionView::GetResource { namespace, name: meta.name_any() },
        ),
    }
}

impl ReconcilerView {
    /// The machine is about to end, whatever comes.
    pub open spec fn settling(self) -> bool {
        self.step is Settle || self.step is SettleApplied
    }

    /// The events that can come of the action that the machine waits for. An object that
    /// is to be applied or followed up has the name and the namespace that this takes.
    pub open spec fn accepts(self, event: EventView) -> bool {
        match event {
            EventView::Failed(_) => !(self.step is Probe),
            EventView::ResourceFound(_) => {
                self.step is Fetch || self.step is Warn || self.step is Clear
                    || self.step is Settle
            },
            EventView::ResourceEnsured(resource) => {
                &&& self.step is Finalizer
                &&& resource.metadata.uid is Some ==> {
                    &&& resource.metadata.namespace is Some
                    &&& resource.recorded_deployment() is Some ==> resource.metadata.name is Some
                }
            },
            EventView::ServiceFound(found) => match self.step {
                StepView::RemovalBackup { .. } => found is Some
                    ==> found->0.metadata.namespace is Some,
                StepView::Original { plan } => {
                    found is Some && !found->0.metadata.owned_by(plan.job.uid)
                        ==> found->0.metadata.namespace is Some
                },
                _ => false,
            },
            EventView::ServiceFetched(service) => {
                self.step is RestoreBackup && service.metadata.namespace is Some
            },
            EventView::ServiceApplied(_) => {
                self.step is RemovalRestore || self.step is Backup || self.step is TestService
                    || self.step is Switch || self.step is RestoreApply
            },
            EventView::DeploymentFound(found) => match self.step {
                StepView::ProxyLookup { plan } => {
                    found is Some && !found->0.metadata.owned_by(plan.owner.uid)
                        ==> found->0.addressable()
                },
                StepView::Scale { .. } => found is Some ==> found->0.addressable(),
                _ => false,
            },
            EventView::EndpointsFetched(endpoints) => {
                &&& self.step is FindEndpoints
                &&& endpoints.first_target() is Some && endpoints.first_target()->0.is_pod()
                    ==> endpoints.first_target()->0.name is Some
            },
            EventView::MetadataFetched(meta) => match self.step {
                StepView::FindPod { .. } => true,
                StepView::FindReplicaSet { .. } => meta.owners().len() == 0 ==> meta.name is Some,
                StepView::FindDeployment { .. } => meta.name is Some,
                _ => false,
            },
            EventView::SecretFound(_) => self.step is Secret,
            EventView::AuthKeyCreated(_) => self.step is AuthKey,
            EventView::Answered(_) => self.step is Probe,
            EventView::Unanswered(_) => self.step is Probe,
            EventView::Done => match self.step {
                StepView::FindRecord { owner, .. } => owner is Some,
                _ => {
                    self.step is RemovalUnlock || self.step is RemovalDelete
                        || self.step is RemovalRelease || self.step is SecretApplied
                        || self.step is ProxyApplied || self.step is ScaleApplied
                        || self.step is WarnApplied || self.step is ClearApplied
                        || self.step is SettleApplied
                },
            },
        }
    }

    /// What follows an event, where only one thing can.
    pub open spec fn next(self, event: EventView) -> ProgressView {
        let target = self.target;
        match event {
            EventView::Failed(error) => if self.settling() {
                ProgressView::Finished(Err(error))
            } else {
                target.settle(false, Err(error))
            },
            _ => match self.step {
                StepView::Fetch => target.fetched(event->ResourceFound_0),
                StepView::RemovalBackup { removal } => target.removal_backup(
                    removal,
                    event->ServiceFound_0,
                ),
                StepView::RemovalRestore { removal } => target.removal_restored(removal),
                StepView::RemovalUnlock { removal } => target.removal_unlocked(removal),
                StepView::RemovalDelete { removal } => target.scale_for_removal(removal),
                StepView::RemovalRelease => target.settle(false, Ok(Requeue::AwaitChange)),
                StepView::Finalizer { service } => target.ensured(
                    service,
                    event->ResourceEnsured_0,
                ),
                StepView::FindEndpoints { candidate } => target.endpoints_found(
                    candidate,
                    event->EndpointsFetched_0,
                ),
                StepView::FindPod { candidate, pod } => target.pod_found(
                    candidate,
                    pod,
                    event->MetadataFetched_0,
                ),
                StepView::FindReplicaSet { candidate } => target.replica_set_found(
                    candidate,
                    event->MetadataFetched_0,
                ),
                StepView::FindDeployment { candidate } => target.deployment_found(
                    candidate,
                    event->MetadataFetched_0,
                ),
                StepView::FindRecord { job, owner, deployment } => target.deploy(
                    PlanView { job, owner: owner->0, deployment },
                ),
                StepView::Secret { plan } => target.secret_found(plan, event->SecretFound_0),
                StepView::AuthKey { plan } => target.auth_key_created(
                    plan,
                    event->AuthKeyCreated_0,
                ),
                StepView::SecretApplied { plan } => target.look_for_proxy(plan),
                StepView::ProxyLookup { plan } => target.proxy_found(
                    plan,
                    event->DeploymentFound_0,
                ),
                StepView::ProxyApplied { plan } => target.look_for_original(plan),
                StepView::Original { plan } => target.original_found(plan, event->ServiceFound_0),
                StepView::Backup { .. } => arbitrary(),
                StepView::TestService { plan } => target.test_service_applied(
                    plan,
                    event->ServiceApplied_0,
                ),
                StepView::Probe { plan, index, purpose } => target.probed(
                    plan,
                    index,
                    purpose,
                    event,
                ),
                StepView::Switch { plan } => target.scale(
                    plan.deployment,
                    0,
                    AfterScaleView::Finish { job: plan.job },
                ),
                StepView::Scale { replicas, then } => target.scale_found(
                    replicas,
                    then,
                    event->DeploymentFound_0,
                ),
                StepView::ScaleApplied { then } => target.scaled(then),
                StepView::RestoreBackup { plan, failure } => target.restore(
                    plan,
                    failure,
                    event->ServiceFetched_0,
                ),
                StepView::RestoreApply { plan, failure } => target.restored(plan, failure),
                StepView::Warn { namespace, message } => target.warned(
                    namespace,
                    message,
                    event->ResourceFound_0,
                ),
                StepView::WarnApplied => target.settle(false, Ok(Requeue::After(30))),
                StepView::Clear => target.cleared(event->ResourceFound_0),
                StepView::ClearApplied => target.settle(true, Ok(Requeue::After(30))),
                StepView::Settle { ready, outcome } => target.settled(
                    ready,
                    outcome,
                    event->ResourceFound_0,
                ),
                StepView::SettleApplied { outcome } => ProgressView::Finished(outcome),
            },
        }
    }

    /// What can follow an event.
    pub open spec fn advances(self, event: EventView, progress: ProgressView) -> bool {
        match (self.step, event) {
            (StepView::Backup { plan, ports }, EventView::ServiceApplied(_)) => {
                self.target.backed_up(plan, ports, progress)
            },
            _ => progress == self.next(event),
        }
    }
}

/// A warning that is put on a resource and then taken off leaves its status as it was,
/// but for the warning, whatever the message.
pub proof fn clearing_takes_back_a_warning(
    target: TargetView,
    namespace: Seq<char>,
    message: Seq<char>,
    latest: ReplacedServiceView,
)
    requires
        latest.status is Some,
    ensures
        target.warned(namespace, message, Some(latest)) == target.pending(
            StepView::WarnApplied,
            ActionView::PatchStatus {
                namespace,
                name: latest.metadata.name_any(),
                resource: latest.with_warning(message),
            },
        ),
        target.cleared(Some(latest.with_warning(message))) == target.pending(
            StepView::ClearApplied,
            ActionView::PatchStatus {
                namespace: target.namespace,
                name: latest.metadata.name_any(),
                resource: ReplacedServiceView {
                    status: Some(
                        ReplacedServiceResourceStatusView { warning: None, ..latest.status->0 },
                    ),
                    ..latest
                },
            },
        ),
{
}

} // verus!
