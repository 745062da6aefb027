//! One reconcile of a replaced service, as a machine: it asks for one action at a time,
//! and the event that comes back decides what it asks for next.

use crate::action::{take_text, Action, Event, Finalized};
use crate::deployment::{make_auth_key_secret, make_proxy_deployment, Deployment};
use crate::endpoints::Endpoints;
use crate::error::{Error, Requeue};
use crate::meta::ObjectMeta;
use crate::port_map::{forwarded_ports, generate_port_map};
use crate::probe::{ignore_certificate_errors, judge_answer, judge_silence, make_test_url};
use crate::replaced_service::{backup_service_name, copy_texts, ReplacedService};
use crate::service::{
    create_copy_of_original_service, make_proxy_service, service_ports, Service,
};
use crate::step::{
    outcome_view, AfterScale, Candidate, Job, Plan, Progress, Purpose, Reconciler, Removal, Step,
    Target,
};
use crate::transitions::started;
use vstd::pervasive::unreached;
use vstd::prelude::*;
use vstd::string::*;

verus! {

impl Candidate {
    fn job(&self) -> (job: Job)
        ensures
            job@ == self@.job(),
    {
        let mut spec = self.resource.spec.clone();
        spec.service_to_replace = self.service.clone();
        Job {
            namespace: self.namespace.clone(),
            name: self.resource.metadata.name_any(),
            uid: self.uid.clone(),
            spec,
        }
    }
}

impl Target {
    fn pending(self, step: Step, action: Action) -> (progress: Progress)
        ensures
            progress@ == self@.pending(step@, action@),
    {
        Progress::Pending(Reconciler { target: self, step }, action)
    }

    fn set_active_state(self, ready: bool, outcome: Result<Requeue, Error>) -> (progress: Progress)
        ensures
            progress@ == self@.settle(ready, outcome_view(&outcome)),
    {
        let namespace = self.namespace.clone();
        let name = self.name.clone();
        self.pending(Step::Settle { ready, outcome }, Action::GetResource { namespace, name })
    }

    fn add_warning_and_requeue(
        self,
        namespace: String,
        name: String,
        message: String,
    ) -> (progress: Progress)
        ensures
            progress@ == self@.warn(namespace@, name@, message@),
    {
        let step = Step::Warn { namespace: namespace.clone(), message };
        self.pending(step, Action::GetResource { namespace, name })
    }

    fn remove_warning_and_requeue(self, job: Job) -> (progress: Progress)
        ensures
            progress@ == self@.clear(job@),
    {
        let namespace = self.namespace.clone();
        self.pending(Step::Clear, Action::GetResource { namespace, name: job.name })
    }

    fn release(self) -> (progress: Progress)
        ensures
            progress@ == self@.release(),
    {
        let namespace = self.namespace.clone();
        let name = self.name.clone();
        self.pending(
            Step::RemovalRelease,
            Action::RemoveFinalizer { kind: Finalized::ReplacedService, namespace, name },
        )
    }

    fn change_deployment_scale(
        self,
        deployment: String,
        replicas: i32,
        then: AfterScale,
    ) -> (progress: Progress)
        ensures
            progress@ == self@.scale(deployment@, replicas, then@),
    {
        let namespace = self.namespace.clone();
        self.pending(
            Step::Scale { replicas, then },
            Action::GetDeployment { namespace, name: deployment },
        )
    }

    fn scaled(self, then: AfterScale) -> (progress: Progress)
        ensures
            progress@ == self@.scaled(then@),
    {
        match then {
            AfterScale::Release => self.release(),
            AfterScale::Restore { plan, failure } => {
                let namespace = self.namespace.clone();
                let name = backup_service_name(&plan.job.spec.service_to_replace);
                self.pending(
                    Step::RestoreBackup { plan, failure },
                    Action::FetchService { namespace, name },
                )
            },
            AfterScale::Finish { job } => self.remove_warning_and_requeue(job),
        }
    }

    fn scale_for_removal(self, removal: Removal) -> (progress: Progress)
        ensures
            progress@ == self@.scale_for_removal(removal@),
    {
        match removal.deployment {
            Some(deployment) => self.change_deployment_scale(deployment, 1, AfterScale::Release),
            None => self.release(),
        }
    }

    fn fetched(self, found: Option<ReplacedService>) -> (progress: Progress)
        ensures
            progress@ == self@.fetched(found.deep_view()),
    {
        match found {
            None => self.set_active_state(false, Ok(Requeue::AwaitChange)),
            Some(resource) => if resource.metadata.deletion_timestamp.is_some() {
                let namespace = self.namespace.clone();
                let name = backup_service_name(&resource.spec.service_to_replace);
                let deployment = resource.recorded_deployment();
                let removal = Removal { service: resource.spec.service_to_replace, deployment };
                self.pending(
                    Step::RemovalBackup { removal },
                    Action::GetService { namespace, name },
                )
            } else {
                let service = resource.spec.service_to_replace.clone();
                self.pending(Step::Finalizer { service }, Action::EnsureFinalizer { resource })
            },
        }
    }

    fn removal_backup(self, removal: Removal, found: Option<Service>) -> (progress: Progress)
        requires
            found is Some ==> found->0@.metadata.namespace is Some,
        ensures
            progress@ == self@.removal_backup(removal@, found.deep_view()),
    {
        match found {
            Some(backup) => {
                let copy = create_copy_of_original_service(removal.service.clone(), backup);
                self.pending(Step::RemovalRestore { removal }, copy.do_server_side_apply())
            },
            None => self.scale_for_removal(removal),
        }
    }

    fn removal_restored(self, removal: Removal) -> (progress: Progress)
        ensures
            progress@ == self@.removal_restored(removal@),
    {
        let namespace = self.namespace.clone();
        let name = backup_service_name(&removal.service);
        self.pending(
            Step::RemovalUnlock { removal },
            Action::RemoveFinalizer { kind: Finalized::Service, namespace, name },
        )
    }

    fn removal_unlocked(self, removal: Removal) -> (progress: Progress)
        ensures
            progress@ == self@.removal_unlocked(removal@),
    {
        let namespace = self.namespace.clone();
        let name = backup_service_name(&removal.service);
        self.pending(Step::RemovalDelete { removal }, Action::DeleteService { namespace, name })
    }

    fn find_deployment(self, service: String, resource: ReplacedService) -> (progress: Progress)
        requires
            resource@.metadata.uid is Some ==> resource@.metadata.namespace is Some,
            resource@.metadata.uid is Some && resource@.recorded_deployment() is Some
                ==> resource@.metadata.name is Some,
        ensures
            progress@ == self@.ensured(service@, resource@),
    {
        if resource.metadata.uid.is_none() {
            let error = Error("Resource does not have a uid assigned".to_string());
            return self.set_active_state(false, Err(error));
        }
        let uid = take_text(&resource.metadata.uid);
        let namespace = take_text(&resource.metadata.namespace);
        let recorded = resource.recorded_deployment();
        let owner = resource.owner_reference();
        let candidate = Candidate { service, resource, namespace, uid };
        match recorded {
            Some(deployment) => match owner {
                Some(owner) => self.ensure_tailscale_proxy(
                    Plan { job: candidate.job(), owner, deployment },
                ),
                None => unreached(),
            },
            None => {
                let namespace = candidate.namespace.clone();
                let name = candidate.resource.spec.service_to_replace.clone();
                self.pending(
                    Step::FindEndpoints { candidate },
                    Action::FetchEndpoints { namespace, name },
                )
            },
        }
    }

    fn not_found(self, candidate: Candidate, message: String) -> (progress: Progress)
        ensures
            progress@ == self@.not_found(candidate@, message@),
    {
        let name = candidate.resource.metadata.name_any();
        self.add_warning_and_requeue(candidate.namespace, name, message)
    }

    fn endpoints_found(self, candidate: Candidate, endpoints: Endpoints) -> (progress: Progress)
        requires
            endpoints@.first_target() is Some && endpoints@.first_target()->0.is_pod()
                ==> endpoints@.first_target()->0.name is Some,
        ensures
            progress@ == self@.endpoints_found(candidate@, endpoints@),
    {
        match endpoints.first_target() {
            None => self.not_found(candidate, "Service has no endpoints defined".to_string()),
            Some(target) => if target.is_pod() {
                let pod = take_text(&target.name);
                let namespace = candidate.namespace.clone();
                let name = pod.clone();
                self.pending(
                    Step::FindPod { candidate, pod },
                    Action::FetchPod { namespace, name },
                )
            } else {
                let mut message = "Service does not point to a pod. Got ".to_string();
                match &target.kind {
                    Some(kind) => message.append(kind.as_str()),
                    None => {
                        proof {
                            assert(message@ + Seq::<char>::empty() =~= message@);
                        }
                    },
                }
                message.append(" instead");
                self.not_found(candidate, message)
            },
        }
    }

    fn pod_found(self, candidate: Candidate, pod: String, meta: ObjectMeta) -> (progress: Progress)
        ensures
            progress@ == self@.pod_found(candidate@, pod@, meta@),
    {
        match meta.first_owner() {
            Some(name) => {
                let namespace = candidate.namespace.clone();
                self.pending(
                    Step::FindReplicaSet { candidate },
                    Action::FetchReplicaSet { namespace, name },
                )
            },
            None => {
                let mut message = "Pod ".to_string();
                message.append(pod.as_str());
                message.append(" does not have an owner reference");
                self.not_found(candidate, message)
            },
        }
    }

    fn replica_set_found(self, candidate: Candidate, meta: ObjectMeta) -> (progress: Progress)
        requires
            meta@.owners().len() == 0 ==> meta@.name is Some,
        ensures
            progress@ == self@.replica_set_found(candidate@, meta@),
    {
        match meta.first_owner() {
            Some(name) => {
                let namespace = candidate.namespace.clone();
                self.pending(
                    Step::FindDeployment { candidate },
                    Action::FetchDeployment { namespace, name },
                )
            },
            None => {
                let name = take_text(&meta.name);
                let mut message = "Replica set ".to_string();
                message.append(name.as_str());
                message.append(" does not have an owner reference");
                self.not_found(candidate, message)
            },
        }
    }

    fn deployment_found(self, candidate: Candidate, meta: ObjectMeta) -> (progress: Progress)
        requires
            meta@.name is Some,
        ensures
            progress@ == self@.deployment_found(candidate@, meta@),
    {
        let deployment = take_text(&meta.name);
        let job = candidate.job();
        let owner = candidate.resource.owner_reference();
        let name = candidate.resource.metadata.name_any();
        let namespace = candidate.namespace;
        let resource = candidate.resource.set_deployment(deployment.clone());
        self.pending(
            Step::FindRecord { job, owner, deployment },
            Action::PatchStatus { namespace, name, resource },
        )
    }

    fn ensure_tailscale_proxy(self, plan: Plan) -> (progress: Progress)
        ensures
            progress@ == self@.deploy(plan@),
    {
        let namespace = plan.job.namespace.clone();
        let name = plan.job.spec.proxy_state_secret_name.clone();
        self.pending(Step::Secret { plan }, Action::GetSecret { namespace, name })
    }

    fn secret_found(self, plan: Plan, exists: bool) -> (progress: Progress)
        ensures
            progress@ == self@.secret_found(plan@, exists),
    {
        if exists {
            self.look_for_proxy(plan)
        } else {
            let tags = copy_texts(&plan.job.spec.tailscale_tags);
            self.pending(Step::AuthKey { plan }, Action::CreateAuthToken { tags })
        }
    }

    fn auth_key_created(self, plan: Plan, auth_key: String) -> (progress: Progress)
        ensures
            progress@ == self@.auth_key_created(plan@, auth_key@),
    {
        let namespace = plan.job.namespace.clone();
        let name = plan.job.spec.proxy_state_secret_name.clone();
        let secret = make_auth_key_secret(
            name.clone(),
            namespace.clone(),
            plan.owner.clone(),
            auth_key,
        );
        self.pending(
            Step::SecretApplied { plan },
            Action::ApplySecret { namespace, name, secret },
        )
    }

    fn look_for_proxy(self, plan: Plan) -> (progress: Progress)
        ensures
            progress@ == self@.look_for_proxy(plan@),
    {
        let namespace = plan.job.namespace.clone();
        let name = "tailscale-outbound-proxy".to_string();
        self.pending(Step::ProxyLookup { plan }, Action::GetDeployment { namespace, name })
    }

    fn create_resource_with_owner_reference(
        self,
        plan: Plan,
        found: Option<Deployment>,
    ) -> (progress: Progress)
        requires
            found is Some && !found->0@.metadata.owned_by(plan@.owner.uid)
                ==> found->0@.addressable(),
        ensures
            progress@ == self@.proxy_found(plan@, found.deep_view()),
    {
        match found {
            Some(existing) => if existing.metadata.owned_by(&plan.owner.uid) {
                self.look_for_original(plan)
            } else {
                let adopted = existing.add_owner(plan.owner.clone());
                self.pending(Step::ProxyApplied { plan }, adopted.do_server_side_apply())
            },
            None => {
                let namespace = plan.job.namespace.clone();
                let name = "tailscale-outbound-proxy".to_string();
                let proxy = make_proxy_deployment(namespace.clone(), &plan.job.spec);
                self.pending(
                    Step::ProxyApplied { plan },
                    Action::CreateProxyDeployment { namespace, name, proxy },
                )
            },
        }
    }

    fn look_for_original(self, plan: Plan) -> (progress: Progress)
        ensures
            progress@ == self@.look_for_original(plan@),
    {
        let namespace = self.namespace.clone();
        let name = plan.job.spec.service_to_replace.clone();
        self.pending(Step::Original { plan }, Action::GetService { namespace, name })
    }

    fn original_found(self, plan: Plan, found: Option<Service>) -> (progress: Progress)
        requires
            found is Some && !found->0@.metadata.owned_by(plan@.job.uid)
                ==> found->0@.metadata.namespace is Some,
        ensures
            progress@ == self@.original_found(plan@, found.deep_view()),
    {
        match found {
            None => {
                let mut message = "Service ".to_string();
                message.append(plan.job.spec.service_to_replace.as_str());
                message.append(" was not found");
                let namespace = self.namespace.clone();
                self.add_warning_and_requeue(namespace, plan.job.name, message)
            },
            Some(service) => if service.metadata.owned_by(&plan.job.uid) {
                self.test_if_proxy_service_works(plan, 0, Purpose::Confirm)
            } else {
                let ports = service_ports(&service);
                let name = backup_service_name(&plan.job.spec.service_to_replace);
                let copy = create_copy_of_original_service(name, service);
                self.pending(Step::Backup { plan, ports }, copy.do_server_side_apply())
            },
        }
    }

    fn backed_up(self, plan: Plan, ports: Vec<i32>) -> (progress: Progress)
        ensures
            self@.backed_up(plan@, ports@, progress@),
    {
        if ports.len() == 0 {
            let namespace = self.namespace.clone();
            return self.add_warning_and_requeue(
                namespace,
                plan.job.name,
                "Service has no ports defined".to_string(),
            );
        }
        match generate_port_map(&ports, &plan.job.spec.ports) {
            Err(message) => {
                let namespace = self.namespace.clone();
                self.add_warning_and_requeue(namespace, plan.job.name, message)
            },
            Ok(map) => {
                let service = make_proxy_service(
                    plan.job.spec.test_service_name(),
                    self.namespace.clone(),
                    plan.owner.clone(),
                    Some(forwarded_ports(&map)),
                );
                self.pending(Step::TestService { plan }, service.do_server_side_apply())
            },
        }
    }

    fn test_service_applied(self, plan: Plan, service: Service) -> (progress: Progress)
        ensures
            progress@ == self@.test_service_applied(plan@, service@),
    {
        let ports = match service.spec {
            Some(spec) => spec.ports,
            None => None,
        };
        self.test_if_proxy_service_works(plan, 0, Purpose::Switch { ports })
    }

    fn test_if_proxy_service_works(
        self,
        plan: Plan,
        index: usize,
        purpose: Purpose,
    ) -> (progress: Progress)
        ensures
            progress@ == self@.probe(plan@, index as nat, purpose@),
    {
        if index < plan.job.spec.ports.len() {
            let port: i32 = plan.job.spec.ports[index].proxy_port;
            let url = make_test_url(&plan.job.spec, &plan.job.namespace, port);
            let ignore = ignore_certificate_errors(&plan.job.spec);
            self.pending(
                Step::Probe { plan, index, purpose },
                Action::TestUrl { url, ignore_certificate_errors: ignore },
            )
        } else {
            match purpose {
                Purpose::Confirm => self.remove_warning_and_requeue(plan.job),
                Purpose::Switch { ports } => {
                    let service = make_proxy_service(
                        plan.job.spec.service_to_replace.clone(),
                        self.namespace.clone(),
                        plan.owner.clone(),
                        ports,
                    );
                    self.pending(Step::Switch { plan }, service.do_server_side_apply())
                },
            }
        }
    }

    fn probe_failed(self, plan: Plan, purpose: Purpose, failure: String) -> (progress: Progress)
        ensures
            progress@ == self@.probe_failed(plan@, purpose@, failure@),
    {
        match purpose {
            Purpose::Confirm => {
                let deployment = plan.deployment.clone();
                self.change_deployment_scale(deployment, 1, AfterScale::Restore { plan, failure })
            },
            Purpose::Switch { .. } => {
                let namespace = self.namespace.clone();
                let message =
                    "Proxy service does not work, leaving service pointer as is: ".to_string().concat(
                    failure.as_str(),
                );
                self.add_warning_and_requeue(namespace, plan.job.name, message)
            },
        }
    }

    fn probe_answered(
        self,
        plan: Plan,
        index: usize,
        purpose: Purpose,
        status: u16,
    ) -> (progress: Progress)
        ensures
            progress@ == self@.probed(
                plan@,
                index as nat,
                purpose@,
                crate::action::EventView::Answered(status),
            ),
    {
        match judge_answer(status) {
            None => {
                let tested: usize = if index < plan.job.spec.ports.len() {
                    index + 1
                } else {
                    index
                };
                self.test_if_proxy_service_works(plan, tested, purpose)
            },
            Some(failure) => self.probe_failed(plan, purpose, failure),
        }
    }

    fn scale_found(
        self,
        replicas: i32,
        then: AfterScale,
        found: Option<Deployment>,
    ) -> (progress: Progress)
        requires
            found is Some ==> found->0@.addressable(),
        ensures
            progress@ == self@.scale_found(replicas, then@, found.deep_view()),
    {
        match found {
            Some(deployment) => {
                let deployment = deployment.scale(replicas);
                self.pending(Step::ScaleApplied { then }, deployment.do_server_side_apply())
            },
            None => self.scaled(then),
        }
    }

    fn restore_proxied_service(
        self,
        plan: Plan,
        failure: String,
        backup: Service,
    ) -> (progress: Progress)
        requires
            backup@.metadata.namespace is Some,
        ensures
            progress@ == self@.restore(plan@, failure@, backup@),
    {
        let name = plan.job.spec.service_to_replace.clone();
        let copy = create_copy_of_original_service(name, backup);
        self.pending(Step::RestoreApply { plan, failure }, copy.do_server_side_apply())
    }

    fn restored(self, plan: Plan, failure: String) -> (progress: Progress)
        ensures
            progress@ == self@.restored(plan@, failure@),
    {
        let namespace = self.namespace.clone();
        let message =
            "Proxy service does not work, returning original service pointer: ".to_string().concat(
            failure.as_str(),
        );
        self.add_warning_and_requeue(namespace, plan.job.name, message)
    }

    fn warned(
        self,
        namespace: String,
        message: String,
        found: Option<ReplacedService>,
    ) -> (progress: Progress)
        ensures
            progress@ == self@.warned(namespace@, message@, found.deep_view()),
    {
        match found {
            Some(latest) => {
                let name = latest.metadata.name_any();
                let resource = latest.set_warning(message);
                self.pending(Step::WarnApplied, Action::PatchStatus { namespace, name, resource })
            },
            None => self.set_active_state(false, Ok(Requeue::After(30))),
        }
    }

    fn cleared(self, found: Option<ReplacedService>) -> (progress: Progress)
        ensures
            progress@ == self@.cleared(found.deep_view()),
    {
        match found {
            Some(latest) => if latest.status.is_some() {
                let namespace = self.namespace.clone();
                let name = latest.metadata.name_any();
                let resource = latest.clear_warning();
                self.pending(Step::ClearApplied, Action::PatchStatus { namespace, name, resource })
            } else {
                self.set_active_state(true, Ok(Requeue::After(30)))
            },
            None => self.set_active_state(true, Ok(Requeue::After(30))),
        }
    }

    fn settled(
        self,
        ready: bool,
        outcome: Result<Requeue, Error>,
        found: Option<ReplacedService>,
    ) -> (progress: Progress)
        ensures
            progress@ == self@.settled(ready, outcome_view(&outcome), found.deep_view()),
    {
        match found {
            Some(latest) => {
                let namespace = self.namespace.clone();
                let name = self.name.clone();
                let resource = latest.set_active(ready);
                self.pending(
                    Step::SettleApplied { outcome },
                    Action::PatchStatus { namespace, name, resource },
                )
            },
            None => Progress::Finished(outcome),
        }
    }
}

/// Begins the reconcile of an announced resource, given its metadata.
pub fn reconcile_replaced_service(meta: &ObjectMeta) -> (progress: Progress)
    ensures
        progress@ == started(meta@),
{
    match &meta.namespace {
        None => Progress::Finished(
            Err(
                Error(
                    "Expected SftpgoUser resource to be namespaced. Can't deploy to unknown namespace.".to_string(),
                ),
            ),
        ),
        Some(namespace) => {
            let target = Target { namespace: namespace.clone(), name: meta.name_any() };
            let action = Action::GetResource { namespace: namespace.clone(), name: meta.name_any() };
            target.pending(Step::Fetch, action)
        },
    }
}

impl Reconciler {
    /// Whether an event can come of the action that the machine waits for, with what it
    /// takes to go on.
    pub fn accepts(&self, event: &Event) -> (accepted: bool)
        ensures
            accepted == self@.accepts(event@),
    {
        match (&self.step, event) {
            (Step::Probe { .. }, Event::Failed(_)) => false,
            (_, Event::Failed(_)) => true,
            (Step::Fetch, Event::ResourceFound(_)) => true,
            (Step::Warn { .. }, Event::ResourceFound(_)) => true,
            (Step::Clear, Event::ResourceFound(_)) => true,
            (Step::Settle { .. }, Event::ResourceFound(_)) => true,
            (Step::Finalizer { .. }, Event::ResourceEnsured(resource)) => {
                resource.metadata.uid.is_none() || (resource.metadata.namespace.is_some() && (
                resource.recorded_deployment().is_none() || resource.metadata.name.is_some()))
            },
            (Step::RemovalBackup { .. }, Event::ServiceFound(found)) => match found {
                Some(service) => service.metadata.namespace.is_some(),
                None => true,
            },
            (Step::Original { plan }, Event::ServiceFound(found)) => match found {
                Some(service) => service.metadata.owned_by(&plan.job.uid)
                    || service.metadata.namespace.is_some(),
                None => true,
            },
            (Step::RestoreBackup { .. }, Event::ServiceFetched(service)) => {
                service.metadata.namespace.is_some()
            },
            (Step::RemovalRestore { .. }, Event::ServiceApplied(_)) => true,
            (Step::Backup { .. }, Event::ServiceApplied(_)) => true,
            (Step::TestService { .. }, Event::ServiceApplied(_)) => true,
            (Step::Switch { .. }, Event::ServiceApplied(_)) => true,
            (Step::RestoreApply { .. }, Event::ServiceApplied(_)) => true,
            (Step::ProxyLookup { plan }, Event::DeploymentFound(found)) => match found {
                Some(deployment) => deployment.metadata.owned_by(&plan.owner.uid) || (
                deployment.metadata.namespace.is_some() && deployment.metadata.name.is_some()),
                None => true,
            },
            (Step::Scale { .. }, Event::DeploymentFound(found)) => match found {
                Some(deployment) => deployment.metadata.namespace.is_some()
                    && deployment.metadata.name.is_some(),
                None => true,
            },
            (Step::FindEndpoints { .. }, Event::EndpointsFetched(endpoints)) => {
                match endpoints.first_target() {
                    Some(target) => !target.is_pod() || target.name.is_some(),
                    None => true,
                }
            },
            (Step::FindPod { .. }, Event::MetadataFetched(_)) => true,
            (Step::FindReplicaSet { .. }, Event::MetadataFetched(meta)) => {
                meta.first_owner().is_some() || meta.name.is_some()
            },
            (Step::FindDeployment { .. }, Event::MetadataFetched(meta)) => meta.name.is_some(),
            (Step::Secret { .. }, Event::SecretFound(_)) => true,
            (Step::AuthKey { .. }, Event::AuthKeyCreated(_)) => true,
            (Step::Probe { .. }, Event::Answered(_)) => true,
            (Step::Probe { .. }, Event::Unanswered(_)) => true,
            (Step::FindRecord { owner, .. }, Event::Done) => owner.is_some(),
            (Step::RemovalUnlock { .. }, Event::Done) => true,
            (Step::RemovalDelete { .. }, Event::Done) => true,
            (Step::RemovalRelease, Event::Done) => true,
            (Step::SecretApplied { .. }, Event::Done) => true,
            (Step::ProxyApplied { .. }, Event::Done) => true,
            (Step::ScaleApplied { .. }, Event::Done) => true,
            (Step::WarnApplied, Event::Done) => true,
            (Step::ClearApplied, Event::Done) => true,
            (Step::SettleApplied { .. }, Event::Done) => true,
            _ => false,
        }
    }

    /// Takes the event that came of the action, and says what is next.
    pub fn run_reconciliation(self, event: Event) -> (progress: Progress)
        requires
            self@.accepts(event@),
        ensures
            self@.advances(event@, progress@),
    {
        let target = self.target;
        match (self.step, event) {
            (Step::Settle { .. }, Event::Failed(error)) => Progress::Finished(Err(error)),
            (Step::SettleApplied { .. }, Event::Failed(error)) => Progress::Finished(Err(error)),
            (_, Event::Failed(error)) => target.set_active_state(false, Err(error)),
            (Step::Fetch, Event::ResourceFound(found)) => target.fetched(found),
            (Step::RemovalBackup { removal }, Event::ServiceFound(found)) => {
                target.removal_backup(removal, found)
            },
            (Step::RemovalRestore { removal }, Event::ServiceApplied(_)) => {
                target.removal_restored(removal)
            },
            (Step::RemovalUnlock { removal }, Event::Done) => target.removal_unlocked(removal),
            (Step::RemovalDelete { removal }, Event::Done) => target.scale_for_removal(removal),
            (Step::RemovalRelease, Event::Done) => {
                target.set_active_state(false, Ok(Requeue::AwaitChange))
            },
            (Step::Finalizer { service }, Event::ResourceEnsured(resource)) => {
                target.find_deployment(service, resource)
            },
            (Step::FindEndpoints { candidate }, Event::EndpointsFetched(endpoints)) => {
                target.endpoints_found(candidate, endpoints)
            },
            (Step::FindPod { candidate, pod }, Event::MetadataFetched(meta)) => {
                target.pod_found(candidate, pod, meta)
            },
            (Step::FindReplicaSet { candidate }, Event::MetadataFetched(meta)) => {
                target.replica_set_found(candidate, meta)
            },
            (Step::FindDeployment { candidate }, Event::MetadataFetched(meta)) => {
                target.deployment_found(candidate, meta)
            },
            (Step::FindRecord { job, owner: Some(owner), deployment }, Event::Done) => {
                target.ensure_tailscale_proxy(Plan { job, owner, deployment })
            },
            (Step::Secret { plan }, Event::SecretFound(exists)) => {
                target.secret_found(plan, exists)
            },
            (Step::AuthKey { plan }, Event::AuthKeyCreated(auth_key)) => {
                target.auth_key_created(plan, auth_key)
            },
            (Step::SecretApplied { plan }, Event::Done) => target.look_for_proxy(plan),
            (Step::ProxyLookup { plan }, Event::DeploymentFound(found)) => {
                target.create_resource_with_owner_reference(plan, found)
            },
            (Step::ProxyApplied { plan }, Event::Done) => target.look_for_original(plan),
            (Step::Original { plan }, Event::ServiceFound(found)) => {
                target.original_found(plan, found)
            },
            (Step::Backup { plan, ports }, Event::ServiceApplied(_)) => {
                target.backed_up(plan, ports)
            },
            (Step::TestService { plan }, Event::ServiceApplied(service)) => {
                target.test_service_applied(plan, service)
            },
            (Step::Probe { plan, index, purpose }, Event::Answered(status)) => {
                target.probe_answered(plan, index, purpose, status)
            },
            (Step::Probe { plan, index: _, purpose }, Event::Unanswered(reason)) => {
                target.probe_failed(plan, purpose, judge_silence(&reason))
            },
            (Step::Switch { plan }, Event::ServiceApplied(_)) => {
                target.change_deployment_scale(
                    plan.deployment,
                    0,
                    AfterScale::Finish { job: plan.job },
                )
            },
            (Step::Scale { replicas, then }, Event::DeploymentFound(found)) => {
                target.scale_found(replicas, then, found)
            },
            (Step::ScaleApplied { then }, Event::Done) => target.scaled(then),
            (Step::RestoreBackup { plan, failure }, Event::ServiceFetched(backup)) => {
                target.restore_proxied_service(plan, failure, backup)
            },
            (Step::RestoreApply { plan, failure }, Event::ServiceApplied(_)) => {
                target.restored(plan, failure)
            },
            (Step::Warn { namespace, message }, Event::ResourceFound(found)) => {
                target.warned(namespace, message, found)
            },
            (Step::WarnApplied, Event::Done) => {
                target.set_active_state(false, Ok(Requeue::After(30)))
            },
            (Step::Clear, Event::ResourceFound(found)) => target.cleared(found),
            (Step::ClearApplied, Event::Done) => {
                target.set_active_state(true, Ok(Requeue::After(30)))
            },
            (Step::Settle { ready, outcome }, Event::ResourceFound(found)) => {
                target.settled(ready, outcome, found)
            },
            (Step::SettleApplied { outcome }, Event::Done) => Progress::Finished(outcome),
            _ => unreached(),
        }
    }
}

} // verus!
