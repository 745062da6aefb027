//! What a reconcile does after each event, read off one step at a time: which action it
//! asks for, with what in it, and what it keeps in mind.

use crate::action::{ActionView, EventView, Finalized};
use crate::deployment::{auth_key_secret, proxy_deployment, DeploymentView};
use crate::endpoints::EndpointsView;
use crate::error::Requeue;
use crate::meta::{ObjectMetaView, OwnerReferenceView};
use crate::port_map::{
    entries_become_ports, every_port_is_forwarded_once, forwarded, lists, port_map,
};
use crate::probe::test_url;
use crate::replaced_service::ReplacedServiceView;
use crate::service::{proxy_service, service_copy, IntOrStringView, ServiceView};
use crate::step::{
    AfterScaleView, CandidateView, JobView, PlanView, ProgressView, PurposeView, ReconcilerView,
    RemovalView, StepView,
};
use crate::transitions::started;
use vstd::prelude::*;

verus! {

impl ReconcilerView {
    /// The machine goes on to wait in this step for what comes of this action.
    pub open spec fn waits(
        self,
        progress: ProgressView,
        step: StepView,
        action: ActionView,
    ) -> bool {
        progress == ProgressView::Pending(ReconcilerView { target: self.target, step }, action)
    }

    /// The machine goes on to put this warning on the resource of this name.
    pub open spec fn warns(
        self,
        progress: ProgressView,
        namespace: Seq<char>,
        name: Seq<char>,
        message: Seq<char>,
    ) -> bool {
        self.waits(
            progress,
            StepView::Warn { namespace, message },
            ActionView::GetResource { namespace, name },
        )
    }

    /// The machine goes on to report whether the service is active, and to end with this.
    pub open spec fn settles(
        self,
        progress: ProgressView,
        ready: bool,
        outcome: Result<Requeue, Seq<char>>,
    ) -> bool {
        self.waits(
            progress,
            StepView::Settle { ready, outcome },
            ActionView::GetResource { namespace: self.target.namespace, name: self.target.name },
        )
    }

    /// The machine goes on to let the resource go.
    pub open spec fn lets_go(self, progress: ProgressView) -> bool {
        self.waits(
            progress,
            StepView::RemovalRelease,
            ActionView::RemoveFinalizer {
                kind: Finalized::ReplacedService,
                namespace: self.target.namespace,
                name: self.target.name,
            },
        )
    }

    /// The machine goes on to take the warning off the resource of this name.
    pub open spec fn clears(self, progress: ProgressView, name: Seq<char>) -> bool {
        self.waits(
            progress,
            StepView::Clear,
            ActionView::GetResource { namespace: self.target.namespace, name },
        )
    }

    /// The machine goes on to look for a deployment, to scale it.
    pub open spec fn scales(
        self,
        progress: ProgressView,
        name: Seq<char>,
        replicas: i32,
        then: AfterScaleView,
    ) -> bool {
        self.waits(
            progress,
            StepView::Scale { replicas, then },
            ActionView::GetDeployment { namespace: self.target.namespace, name },
        )
    }

    /// The machine goes on to look for the secret of the proxy.
    pub open spec fn seeks_secret(self, progress: ProgressView, plan: PlanView) -> bool {
        self.waits(
            progress,
            StepView::Secret { plan },
            ActionView::GetSecret {
                namespace: plan.job.namespace,
                name: plan.job.spec.proxy_state_secret_name,
            },
        )
    }

    /// The machine goes on to look for the deployment of the proxy.
    pub open spec fn seeks_proxy(self, progress: ProgressView, plan: PlanView) -> bool {
        self.waits(
            progress,
            StepView::ProxyLookup { plan },
            ActionView::GetDeployment {
                namespace: plan.job.namespace,
                name: "tailscale-outbound-proxy"@,
            },
        )
    }

    /// The machine goes on to look for the service to replace.
    pub open spec fn seeks_service(self, progress: ProgressView, plan: PlanView) -> bool {
        self.waits(
            progress,
            StepView::Original { plan },
            ActionView::GetService {
                namespace: self.target.namespace,
                name: plan.job.spec.service_to_replace,
            },
        )
    }

    /// The machine goes on to test this port of the proxy.
    pub open spec fn tests_port(
        self,
        progress: ProgressView,
        plan: PlanView,
        index: nat,
        purpose: PurposeView,
    ) -> bool {
        self.waits(
            progress,
            StepView::Probe { plan, index, purpose },
            ActionView::TestUrl {
                url: test_url(
                    plan.job.spec,
                    plan.job.namespace,
                    plan.job.spec.ports[index as int].proxy_port,
                ),
                ignore_certificate_errors: plan.job.spec.ignore_certificate_errors == Some(true),
            },
        )
    }

    /// All ports of the proxy work. A service that leads to it already is left as it is; a
    /// service that does not is made to.
    pub open spec fn trusts_proxy(
        self,
        progress: ProgressView,
        plan: PlanView,
        purpose: PurposeView,
    ) -> bool {
        match purpose {
            PurposeView::Confirm => self.clears(progress, plan.job.name),
            PurposeView::Switch { ports } => self.waits(
                progress,
                StepView::Switch { plan },
                proxy_service(
                    plan.job.spec.service_to_replace,
                    self.target.namespace,
                    plan.owner,
                    ports,
                ).apply(),
            ),
        }
    }

    /// The proxy does not work. A service that leads to it is given back, once its
    /// deployment runs again; a service that does not is left as it is.
    pub open spec fn distrusts_proxy(
        self,
        progress: ProgressView,
        plan: PlanView,
        purpose: PurposeView,
        failure: Seq<char>,
    ) -> bool {
        match purpose {
            PurposeView::Confirm => self.scales(
                progress,
                plan.deployment,
                1,
                AfterScaleView::Restore { plan, failure },
            ),
            PurposeView::Switch { .. } => self.warns(
                progress,
                self.target.namespace,
                plan.job.name,
                "Proxy service does not work, leaving service pointer as is: "@ + failure,
            ),
        }
    }

    /// A deployment is scaled, or is gone, and the machine does what comes after.
    pub open spec fn goes_on(self, progress: ProgressView, then: AfterScaleView) -> bool {
        match then {
            AfterScaleView::Release => self.lets_go(progress),
            AfterScaleView::Finish { job } => self.clears(progress, job.name),
            AfterScaleView::Restore { plan, failure } => self.waits(
                progress,
                StepView::RestoreBackup { plan, failure },
                ActionView::FetchService {
                    namespace: self.target.namespace,
                    name: plan.job.spec.service_to_replace + "-proxy-backup"@,
                },
            ),
        }
    }

    /// Whatever was replaced stands again. A deployment on record is scaled up before the
    /// resource is let go.
    pub open spec fn finishes_removal(self, progress: ProgressView, removal: RemovalView) -> bool {
        match removal.deployment {
            Some(name) => self.scales(progress, name, 1, AfterScaleView::Release),
            None => self.lets_go(progress),
        }
    }
}

/// A reconcile begins by reading its resource anew. Without a namespace it cannot.
pub proof fn reconcile_begins_with_a_read(meta: ObjectMetaView)
    ensures
        meta.namespace is Some ==> {
            &&& started(meta) is Pending
            &&& started(meta)->Pending_0.step is Fetch
            &&& started(meta)->Pending_0.target.namespace == meta.namespace->0
            &&& meta.name is Some ==> started(meta)->Pending_0.target.name == meta.name->0
            &&& meta.name is None && meta.generate_name is Some
                ==> started(meta)->Pending_0.target.name == meta.generate_name->0
            &&& meta.name is None && meta.generate_name is None
                ==> started(meta)->Pending_0.target.name.len() == 0
            &&& started(meta)->Pending_1 == (ActionView::GetResource {
                namespace: meta.namespace->0,
                name: started(meta)->Pending_0.target.name,
            })
        },
        meta.namespace is None ==> started(meta) == ProgressView::Finished(
            Err(
                "Expected SftpgoUser resource to be namespaced. Can't deploy to unknown namespace."@,
            ),
        ),
{
}

/// A failed action ends the reconcile in its error: after one last report that the service
/// is not active, or at once where that report itself failed.
pub proof fn failure_leads_to_the_last_report(
    r: ReconcilerView,
    error: Seq<char>,
    progress: ProgressView,
)
    requires
        r.advances(EventView::Failed(error), progress),
    ensures
        r.step is Settle || r.step is SettleApplied ==> progress == ProgressView::Finished(
            Err(error),
        ),
        !(r.step is Settle || r.step is SettleApplied) ==> r.settles(
            progress,
            false,
            Err(error),
        ),
{
}

/// What the first read finds decides: nothing ends the reconcile; a resource marked for
/// deletion has its replacement undone, of the service and the deployment that it names;
/// any other gets its finalizer, and the service that it names is kept in mind.
pub proof fn first_read_sets_the_course(
    r: ReconcilerView,
    found: Option<ReplacedServiceView>,
    progress: ProgressView,
)
    requires
        r.step is Fetch,
        r.advances(EventView::ResourceFound(found), progress),
    ensures
        match found {
            None => r.settles(progress, false, Ok(Requeue::AwaitChange)),
            Some(resource) => if resource.metadata.deletion_timestamp is Some {
                r.waits(
                    progress,
                    StepView::RemovalBackup {
                        removal: RemovalView {
                            service: resource.spec.service_to_replace,
                            deployment: match resource.status {
                                Some(status) => status.replaced_deployment,
                                None => None,
                            },
                        },
                    },
                    ActionView::GetService {
                        namespace: r.target.namespace,
                        name: resource.spec.service_to_replace + "-proxy-backup"@,
                    },
                )
            } else {
                r.waits(
                    progress,
                    StepView::Finalizer { service: resource.spec.service_to_replace },
                    ActionView::EnsureFinalizer { resource },
                )
            },
        },
{
}

/// A removal restores the service from its backup, takes the finalizer off the backup,
/// deletes it, and goes on with the deployment. Where there is no backup it goes on at once.
pub proof fn removal_takes_its_steps(
    r: ReconcilerView,
    removal: RemovalView,
    event: EventView,
    progress: ProgressView,
)
    requires
        r.accepts(event),
        !(event is Failed),
        r.advances(event, progress),
    ensures
        r.step == (StepView::RemovalBackup { removal }) ==> match event {
            EventView::ServiceFound(Some(backup)) => r.waits(
                progress,
                StepView::RemovalRestore { removal },
                service_copy(removal.service, backup).apply(),
            ),
            _ => r.finishes_removal(progress, removal),
        },
        r.step == (StepView::RemovalRestore { removal }) ==> r.waits(
            progress,
            StepView::RemovalUnlock { removal },
            ActionView::RemoveFinalizer {
                kind: Finalized::Service,
                namespace: r.target.namespace,
                name: removal.service + "-proxy-backup"@,
            },
        ),
        r.step == (StepView::RemovalUnlock { removal }) ==> r.waits(
            progress,
            StepView::RemovalDelete { removal },
            ActionView::DeleteService {
                namespace: r.target.namespace,
                name: removal.service + "-proxy-backup"@,
            },
        ),
        r.step == (StepView::RemovalDelete { removal }) ==> r.finishes_removal(
            progress,
            removal,
        ),
        r.step is RemovalRelease ==> r.settles(progress, false, Ok(Requeue::AwaitChange)),
{
}

/// A resource that has its finalizer needs a uid. With a deployment on record the proxy is
/// next; else the deployment is looked for, from the endpoints of the service on. The
/// service is the one that the resource named first; all else is as it reads now.
pub proof fn ensured_resource_makes_the_plan(
    r: ReconcilerView,
    service: Seq<char>,
    resource: ReplacedServiceView,
    progress: ProgressView,
    candidate: CandidateView,
    plan: PlanView,
)
    requires
        r.step == (StepView::Finalizer { service }),
        r.accepts(EventView::ResourceEnsured(resource)),
        r.advances(EventView::ResourceEnsured(resource), progress),
        candidate.service == service,
        candidate.resource == resource,
        resource.metadata.uid is Some ==> candidate.uid == resource.metadata.uid->0
            && candidate.namespace == resource.metadata.namespace->0,
        plan.job.service_is(service, candidate),
        resource.metadata.uid is Some && resource.metadata.name is Some ==> plan.owner.names(
            resource.metadata.name->0,
            resource.metadata.uid->0,
        ),
        resource.status is Some && resource.status->0.replaced_deployment is Some
            ==> plan.deployment == resource.status->0.replaced_deployment->0,
    ensures
        if resource.metadata.uid is None {
            r.settles(progress, false, Err("Resource does not have a uid assigned"@))
        } else if resource.status is Some && resource.status->0.replaced_deployment is Some {
            r.seeks_secret(progress, plan)
        } else {
            r.waits(
                progress,
                StepView::FindEndpoints { candidate },
                ActionView::FetchEndpoints {
                    namespace: resource.metadata.namespace->0,
                    name: resource.spec.service_to_replace,
                },
            )
        },
{
}

impl JobView {
    /// The job of a candidate: the service that it names, and all else as its resource
    /// reads.
    pub open spec fn service_is(self, service: Seq<char>, candidate: CandidateView) -> bool {
        &&& self.namespace == candidate.namespace
        &&& self.uid == candidate.uid
        &&& self.name == candidate.resource.metadata.name_any()
        &&& self.spec.service_to_replace == service
        &&& self.spec.ports == candidate.resource.spec.ports
        &&& self.spec.node_selector == candidate.resource.spec.node_selector
        &&& self.spec.health_endpoint == candidate.resource.spec.health_endpoint
        &&& self.spec.health_test_protocol == candidate.resource.spec.health_test_protocol
        &&& self.spec.ignore_certificate_errors
            == candidate.resource.spec.ignore_certificate_errors
        &&& self.spec.tailscale_host_name == candidate.resource.spec.tailscale_host_name
        &&& self.spec.tailscale_tags == candidate.resource.spec.tailscale_tags
        &&& self.spec.service_account == candidate.resource.spec.service_account
        &&& self.spec.proxy_state_secret_name == candidate.resource.spec.proxy_state_secret_name
    }
}

impl OwnerReferenceView {
    /// The owner is the resource of this name and uid.
    pub open spec fn names(self, name: Seq<char>, uid: Seq<char>) -> bool {
        &&& self.name == name
        &&& self.uid == uid
        &&& self.kind == "ReplacedService"@
        &&& self.api_version == "tsproxy.digizuite.com/v1alpha1"@
        &&& self.controller == Some(false)
        &&& self.block_owner_deletion is None
    }
}

/// The deployment is looked for from owner to owner: from the pod behind the service to the
/// first owner of the pod, and from there to its first owner. Where the chain ends early,
/// the resource gets a warning that says where.
pub proof fn deployment_is_found_by_owners(
    r: ReconcilerView,
    candidate: CandidateView,
    pod: Seq<char>,
    meta: ObjectMetaView,
    progress: ProgressView,
)
    requires
        r.accepts(EventView::MetadataFetched(meta)),
        r.advances(EventView::MetadataFetched(meta), progress),
    ensures
        r.step == (StepView::FindPod { candidate, pod }) ==> if meta.owner_references is Some
            && meta.owner_references->0.len() > 0 {
            r.waits(
                progress,
                StepView::FindReplicaSet { candidate },
                ActionView::FetchReplicaSet {
                    namespace: candidate.namespace,
                    name: meta.owner_references->0[0].name,
                },
            )
        } else {
            r.warns(
                progress,
                candidate.namespace,
                candidate.resource.metadata.name_any(),
                "Pod "@ + pod + " does not have an owner reference"@,
            )
        },
        r.step == (StepView::FindReplicaSet { candidate }) ==> if meta.owner_references is Some
            && meta.owner_references->0.len() > 0 {
            r.waits(
                progress,
                StepView::FindDeployment { candidate },
                ActionView::FetchDeployment {
                    namespace: candidate.namespace,
                    name: meta.owner_references->0[0].name,
                },
            )
        } else {
            r.warns(
                progress,
                candidate.namespace,
                candidate.resource.metadata.name_any(),
                "Replica set "@ + meta.name->0 + " does not have an owner reference"@,
            )
        },
{
}

/// The search begins at the first address behind the service, which has to be a pod.
pub proof fn search_begins_at_the_first_address(
    r: ReconcilerView,
    candidate: CandidateView,
    endpoints: EndpointsView,
    progress: ProgressView,
)
    requires
        r.step == (StepView::FindEndpoints { candidate }),
        r.accepts(EventView::EndpointsFetched(endpoints)),
        r.advances(EventView::EndpointsFetched(endpoints), progress),
    ensures
        match endpoints.first_target() {
            None => r.warns(
                progress,
                candidate.namespace,
                candidate.resource.metadata.name_any(),
                "Service has no endpoints defined"@,
            ),
            Some(target) => if target.kind == Some("Pod"@) {
                r.waits(
                    progress,
                    StepView::FindPod { candidate, pod: target.name->0 },
                    ActionView::FetchPod {
                        namespace: candidate.namespace,
                        name: target.name->0,
                    },
                )
            } else if target.kind is Some {
                r.warns(
                    progress,
                    candidate.namespace,
                    candidate.resource.metadata.name_any(),
                    "Service does not point to a pod. Got "@ + target.kind->0 + " instead"@,
                )
            } else {
                r.warns(
                    progress,
                    candidate.namespace,
                    candidate.resource.metadata.name_any(),
                    "Service does not point to a pod. Got "@ + " instead"@,
                )
            },
        },
{
    assert("Service does not point to a pod. Got "@ + Seq::<char>::empty() + " instead"@
        =~= "Service does not point to a pod. Got "@ + " instead"@);
}

/// A deployment that was found is put on record, and then the proxy is next, for the job
/// that the candidate is.
pub proof fn found_deployment_is_recorded(
    r: ReconcilerView,
    candidate: CandidateView,
    meta: ObjectMetaView,
    progress: ProgressView,
    job: JobView,
)
    requires
        r.step == (StepView::FindDeployment { candidate }),
        r.accepts(EventView::MetadataFetched(meta)),
        r.advances(EventView::MetadataFetched(meta), progress),
        job.service_is(candidate.service, candidate),
    ensures
        r.waits(
            progress,
            StepView::FindRecord {
                job,
                owner: candidate.resource.owner_reference(),
                deployment: meta.name->0,
            },
            ActionView::PatchStatus {
                namespace: candidate.namespace,
                name: candidate.resource.metadata.name_any(),
                resource: candidate.resource.with_deployment(meta.name->0),
            },
        ),
{
}

/// What is on record leads to the proxy, with the same job, owner and deployment.
pub proof fn recorded_deployment_makes_the_plan(
    r: ReconcilerView,
    job: JobView,
    owner: Option<OwnerReferenceView>,
    deployment: Seq<char>,
    progress: ProgressView,
)
    requires
        r.step == (StepView::FindRecord { job, owner, deployment }),
        r.accepts(EventView::Done),
        r.advances(EventView::Done, progress),
    ensures
        r.seeks_secret(progress, PlanView { job, owner: owner->0, deployment }),
{
}

/// The proxy gets a secret with a new key where it has none, and keeps the one that it has;
/// it gets a deployment where it has none, and shares the one that is there.
pub proof fn proxy_gets_what_it_lacks(
    r: ReconcilerView,
    plan: PlanView,
    event: EventView,
    progress: ProgressView,
)
    requires
        r.accepts(event),
        !(event is Failed),
        r.advances(event, progress),
    ensures
        r.step == (StepView::Secret { plan }) ==> {
            &&& event == EventView::SecretFound(true) ==> r.seeks_proxy(progress, plan)
            &&& event == EventView::SecretFound(false) ==> r.waits(
                progress,
                StepView::AuthKey { plan },
                ActionView::CreateAuthToken { tags: plan.job.spec.tailscale_tags },
            )
        },
        r.step == (StepView::AuthKey { plan }) ==> r.waits(
            progress,
            StepView::SecretApplied { plan },
            ActionView::ApplySecret {
                namespace: plan.job.namespace,
                name: plan.job.spec.proxy_state_secret_name,
                secret: auth_key_secret(
                    plan.job.spec.proxy_state_secret_name,
                    plan.job.namespace,
                    plan.owner,
                    event->AuthKeyCreated_0,
                ),
            },
        ),
        r.step == (StepView::SecretApplied { plan }) ==> r.seeks_proxy(progress, plan),
        r.step == (StepView::ProxyLookup { plan }) ==> match event->DeploymentFound_0 {
            None => r.waits(
                progress,
                StepView::ProxyApplied { plan },
                ActionView::CreateProxyDeployment {
                    namespace: plan.job.namespace,
                    name: "tailscale-outbound-proxy"@,
                    proxy: proxy_deployment(plan.job.namespace, plan.job.spec),
                },
            ),
            Some(existing) => if existing.metadata.owned_by(plan.owner.uid) {
                r.seeks_service(progress, plan)
            } else {
                r.waits(
                    progress,
                    StepView::ProxyApplied { plan },
                    existing.with_owner(plan.owner).apply(),
                )
            },
        },
        r.step == (StepView::ProxyApplied { plan }) ==> r.seeks_service(progress, plan),
{
}

/// A service that leads to the proxy is confirmed, port by port; any other is backed up,
/// and the numbers of its ports are kept in mind, in their order; one that is missing is
/// reported.
pub proof fn found_service_is_confirmed_or_backed_up(
    r: ReconcilerView,
    plan: PlanView,
    found: Option<ServiceView>,
    progress: ProgressView,
)
    requires
        r.step == (StepView::Original { plan }),
        r.accepts(EventView::ServiceFound(found)),
        r.advances(EventView::ServiceFound(found), progress),
    ensures
        match found {
            None => r.warns(
                progress,
                r.target.namespace,
                plan.job.name,
                "Service "@ + plan.job.spec.service_to_replace + " was not found"@,
            ),
            Some(service) => if service.metadata.owned_by(plan.job.uid) {
                if plan.job.spec.ports.len() > 0 {
                    r.tests_port(progress, plan, 0, PurposeView::Confirm)
                } else {
                    r.trusts_proxy(progress, plan, PurposeView::Confirm)
                }
            } else {
                &&& progress is Pending
                &&& progress->Pending_0.step is Backup
                &&& {
                    let ports = progress->Pending_0.step->Backup_ports;
                    &&& r.waits(
                        progress,
                        StepView::Backup { plan, ports },
                        service_copy(
                            plan.job.spec.service_to_replace + "-proxy-backup"@,
                            service,
                        ).apply(),
                    )
                    &&& match service.spec {
                        Some(spec) => match spec.ports {
                            Some(listed) => {
                                &&& ports.len() == listed.len()
                                &&& forall|i: int|
                                    0 <= i < listed.len() ==> #[trigger] ports[i]
                                        == listed[i].port
                            },
                            None => ports.len() == 0,
                        },
                        None => ports.len() == 0,
                    }
                }
            },
        },
{
}

/// The test service offers every port of the service and no other, each once, and leads
/// each to the proxy port that the port map gives. It stands under the name of the service
/// with a suffix. Where the ports cannot be mapped, the resource gets a warning.
pub proof fn test_service_offers_every_port(
    r: ReconcilerView,
    plan: PlanView,
    ports: Seq<i32>,
    applied: ServiceView,
    progress: ProgressView,
)
    requires
        r.step == (StepView::Backup { plan, ports }),
        r.advances(EventView::ServiceApplied(applied), progress),
    ensures
        ports.len() == 0 ==> r.warns(
            progress,
            r.target.namespace,
            plan.job.name,
            "Service has no ports defined"@,
        ),
        ports.len() > 0 && port_map(ports, plan.job.spec.ports) is Err ==> r.warns(
            progress,
            r.target.namespace,
            plan.job.name,
            port_map(ports, plan.job.spec.ports)->Err_0,
        ),
        ports.len() > 0 && port_map(ports, plan.job.spec.ports) is Ok ==> {
            let map = port_map(ports, plan.job.spec.ports)->Ok_0;
            &&& progress is Pending
            &&& progress->Pending_1 is ApplyService
            &&& {
                let service = progress->Pending_1->service;
                &&& r.waits(
                    progress,
                    StepView::TestService { plan },
                    ActionView::ApplyService {
                        namespace: r.target.namespace,
                        name: plan.job.spec.service_to_replace + "-proxy"@,
                        service,
                    },
                )
                &&& service.spec is Some
                &&& service.spec->0.ports is Some
                &&& {
                    let offered = service.spec->0.ports->0;
                    &&& service == proxy_service(
                        plan.job.spec.service_to_replace + "-proxy"@,
                        r.target.namespace,
                        plan.owner,
                        Some(offered),
                    )
                    &&& forall|port: i32| #[trigger]
                        ports.contains(port) ==> exists|k: int|
                            0 <= k < offered.len() && (#[trigger] offered[k]).port == port
                    &&& forall|k: int|
                        0 <= k < offered.len() ==> ports.contains((#[trigger] offered[k]).port)
                            && offered[k].target_port == Some(
                            IntOrStringView::Int(map[offered[k].port]),
                        )
                    &&& forall|k: int, l: int|
                        0 <= k < offered.len() && 0 <= l < offered.len() && (
                        #[trigger] offered[k]).port == (#[trigger] offered[l]).port ==> k == l
                }
            }
        },
{
    if ports.len() > 0 && port_map(ports, plan.job.spec.ports) is Ok {
        let map = port_map(ports, plan.job.spec.ports)->Ok_0;
        let listing = choose|listing: Seq<(i32, i32)>|
            lists(listing, map) && progress == r.target.pending(
                StepView::TestService { plan },
                proxy_service(
                    plan.job.spec.test_service_name(),
                    r.target.namespace,
                    plan.owner,
                    Some(#[trigger] forwarded(listing)),
                ).apply(),
            );
        every_port_is_forwarded_once(ports, plan.job.spec.ports, listing);
        entries_become_ports(listing);
        let offered = forwarded(listing);
        assert forall|k: int| 0 <= k < offered.len() implies ports.contains(
            (#[trigger] offered[k]).port,
        ) && offered[k].target_port == Some(IntOrStringView::Int(map[offered[k].port])) by {
            assert(listing[k].0 == offered[k].port);
        }
    }
}

/// A test service that stands is what the proxy is tested through, port by port; and the
/// ports that it reads back with are the ones that the service is to get.
pub proof fn standing_test_service_is_tested(
    r: ReconcilerView,
    plan: PlanView,
    applied: ServiceView,
    progress: ProgressView,
)
    requires
        r.step == (StepView::TestService { plan }),
        r.advances(EventView::ServiceApplied(applied), progress),
    ensures
        ({
            let purpose = PurposeView::Switch {
                ports: match applied.spec {
                    Some(spec) => spec.ports,
                    None => None,
                },
            };
            if plan.job.spec.ports.len() > 0 {
                r.tests_port(progress, plan, 0, purpose)
            } else {
                r.trusts_proxy(progress, plan, purpose)
            }
        }),
{
}

/// Each port that the resource lists is tested in turn. The first that does not answer with
/// success ends the tests; when the last one has, the proxy is trusted.
pub proof fn ports_are_tested_in_turn(
    r: ReconcilerView,
    plan: PlanView,
    index: nat,
    purpose: PurposeView,
    event: EventView,
    progress: ProgressView,
)
    requires
        r.step == (StepView::Probe { plan, index, purpose }),
        r.accepts(event),
        r.advances(event, progress),
    ensures
        match event {
            EventView::Answered(status) => if 200 <= status <= 299 {
                if index + 1 < plan.job.spec.ports.len() {
                    r.tests_port(progress, plan, index + 1, purpose)
                } else {
                    r.trusts_proxy(progress, plan, purpose)
                }
            } else {
                r.distrusts_proxy(
                    progress,
                    plan,
                    purpose,
                    "Proxied service did respond, but the result was not a success"@,
                )
            },
            EventView::Unanswered(reason) => r.distrusts_proxy(
                progress,
                plan,
                purpose,
                "Failed to test proxy service: "@ + reason,
            ),
            _ => false,
        },
{
}

/// When the service leads to the proxy, the deployment behind it is scaled to nothing.
pub proof fn switch_stops_the_deployment(
    r: ReconcilerView,
    plan: PlanView,
    applied: ServiceView,
    progress: ProgressView,
)
    requires
        r.step == (StepView::Switch { plan }),
        r.advances(EventView::ServiceApplied(applied), progress),
    ensures
        r.scales(progress, plan.deployment, 0, AfterScaleView::Finish { job: plan.job }),
{
}

/// A deployment that is found is scaled to the number that was asked for, and what comes
/// after waits for that; where there is none it comes at once.
pub proof fn deployment_is_scaled_where_there_is_one(
    r: ReconcilerView,
    replicas: i32,
    then: AfterScaleView,
    found: Option<DeploymentView>,
    progress: ProgressView,
)
    requires
        r.step == (StepView::Scale { replicas, then }),
        r.accepts(EventView::DeploymentFound(found)),
        r.advances(EventView::DeploymentFound(found), progress),
    ensures
        match found {
            Some(deployment) => r.waits(
                progress,
                StepView::ScaleApplied { then },
                deployment.scaled(replicas).apply(),
            ),
            None => r.goes_on(progress, then),
        },
{
}

/// What comes after scaling comes when the deployment was scaled.
pub proof fn scaling_is_followed_up(
    r: ReconcilerView,
    then: AfterScaleView,
    progress: ProgressView,
)
    requires
        r.step == (StepView::ScaleApplied { then }),
        r.advances(EventView::Done, progress),
    ensures
        r.goes_on(progress, then),
{
}

/// A service is given back as a copy of its backup under its own name, and then the
/// resource gets a warning that says why.
pub proof fn service_is_given_back(
    r: ReconcilerView,
    plan: PlanView,
    failure: Seq<char>,
    event: EventView,
    progress: ProgressView,
)
    requires
        r.accepts(event),
        !(event is Failed),
        r.advances(event, progress),
    ensures
        r.step == (StepView::RestoreBackup { plan, failure }) ==> r.waits(
            progress,
            StepView::RestoreApply { plan, failure },
            service_copy(
                plan.job.spec.service_to_replace,
                event->ServiceFetched_0,
            ).apply(),
        ),
        r.step == (StepView::RestoreApply { plan, failure }) ==> r.warns(
            progress,
            r.target.namespace,
            plan.job.name,
            "Proxy service does not work, returning original service pointer: "@ + failure,
        ),
{
}

/// Warnings are written to, and taken off, the resource as it reads at that moment, and
/// only where it still exists; taking one off needs a status to take it from. With a
/// warning the service is not active, without one it is, and either way the reconcile comes
/// back in half a minute.
pub proof fn warnings_go_to_the_latest_resource(
    r: ReconcilerView,
    namespace: Seq<char>,
    message: Seq<char>,
    found: Option<ReplacedServiceView>,
    progress: ProgressView,
)
    requires
        r.advances(EventView::ResourceFound(found), progress),
    ensures
        r.step == (StepView::Warn { namespace, message }) ==> match found {
            Some(latest) => r.waits(
                progress,
                StepView::WarnApplied,
                ActionView::PatchStatus {
                    namespace,
                    name: latest.metadata.name_any(),
                    resource: latest.with_warning(message),
                },
            ),
            None => r.settles(progress, false, Ok(Requeue::After(30))),
        },
        r.step is Clear ==> if found is Some && found->0.status is Some {
            r.waits(
                progress,
                StepView::ClearApplied,
                ActionView::PatchStatus {
                    namespace: r.target.namespace,
                    name: found->0.metadata.name_any(),
                    resource: found->0.without_warning(),
                },
            )
        } else {
            r.settles(progress, true, Ok(Requeue::After(30)))
        },
{
}

/// When a warning is written the reconcile settles as not active, and when one is taken off
/// as active.
pub proof fn written_warnings_settle(r: ReconcilerView, progress: ProgressView)
    requires
        r.advances(EventView::Done, progress),
    ensures
        r.step is WarnApplied ==> r.settles(progress, false, Ok(Requeue::After(30))),
        r.step is ClearApplied ==> r.settles(progress, true, Ok(Requeue::After(30))),
{
}

/// The last report goes to the resource as it reads at that moment, where it still exists,
/// and changes nothing of how the reconcile ends.
pub proof fn last_report_keeps_the_outcome(
    r: ReconcilerView,
    ready: bool,
    outcome: Result<Requeue, Seq<char>>,
    found: Option<ReplacedServiceView>,
    reported: ProgressView,
    done: ProgressView,
)
    requires
        r.advances(EventView::ResourceFound(found), reported),
        r.advances(EventView::Done, done),
    ensures
        r.step == (StepView::Settle { ready, outcome }) ==> match found {
            Some(latest) => r.waits(
                reported,
                StepView::SettleApplied { outcome },
                ActionView::PatchStatus {
                    namespace: r.target.namespace,
                    name: r.target.name,
                    resource: latest.with_active(ready),
                },
            ),
            None => reported == ProgressView::Finished(outcome),
        },
        r.step == (StepView::SettleApplied { outcome }) ==> done == ProgressView::Finished(
            outcome,
        ),
{
}

/// In each step the machine takes the events that its action can lead to, and refuses only
/// those of them that lack the name, namespace or owner without which it cannot go on.
pub proof fn steps_take_their_own_events(r: ReconcilerView, event: EventView)
    ensures
        event is Failed ==> (r.accepts(event) <==> !(r.step is Probe)),
        !(event is Failed) ==> match r.step {
            StepView::Fetch => r.accepts(event) <==> event is ResourceFound,
            StepView::Warn { .. } => r.accepts(event) <==> event is ResourceFound,
            StepView::Clear => r.accepts(event) <==> event is ResourceFound,
            StepView::Settle { .. } => r.accepts(event) <==> event is ResourceFound,
            StepView::Finalizer { .. } => r.accepts(event) <==> match event {
                EventView::ResourceEnsured(resource) => resource.metadata.uid is None || (
                resource.metadata.namespace is Some && (resource.status is None
                    || resource.status->0.replaced_deployment is None
                    || resource.metadata.name is Some)),
                _ => false,
            },
            StepView::RemovalBackup { .. } => r.accepts(event) <==> match event {
                EventView::ServiceFound(Some(backup)) => backup.metadata.namespace is Some,
                EventView::ServiceFound(None) => true,
                _ => false,
            },
            StepView::Original { plan } => r.accepts(event) <==> match event {
                EventView::ServiceFound(Some(service)) => service.metadata.owned_by(
                    plan.job.uid,
                ) || service.metadata.namespace is Some,
                EventView::ServiceFound(None) => true,
                _ => false,
            },
            StepView::RestoreBackup { .. } => r.accepts(event) <==> match event {
                EventView::ServiceFetched(backup) => backup.metadata.namespace is Some,
                _ => false,
            },
            StepView::RemovalRestore { .. } => r.accepts(event) <==> event is ServiceApplied,
            StepView::Backup { .. } => r.accepts(event) <==> event is ServiceApplied,
            StepView::TestService { .. } => r.accepts(event) <==> event is ServiceApplied,
            StepView::Switch { .. } => r.accepts(event) <==> event is ServiceApplied,
            StepView::RestoreApply { .. } => r.accepts(event) <==> event is ServiceApplied,
            StepView::ProxyLookup { plan } => r.accepts(event) <==> match event {
                EventView::DeploymentFound(Some(existing)) => existing.metadata.owned_by(
                    plan.owner.uid,
                ) || (existing.metadata.namespace is Some && existing.metadata.name is Some),
                EventView::DeploymentFound(None) => true,
                _ => false,
            },
            StepView::Scale { .. } => r.accepts(event) <==> match event {
                EventView::DeploymentFound(Some(deployment)) => {
                    deployment.metadata.namespace is Some && deployment.metadata.name is Some
                },
                EventView::DeploymentFound(None) => true,
                _ => false,
            },
            StepView::FindEndpoints { .. } => r.accepts(event) <==> match event {
                EventView::EndpointsFetched(endpoints) => match endpoints.first_target() {
                    Some(target) => target.kind != Some("Pod"@) || target.name is Some,
                    None => true,
                },
                _ => false,
            },
            StepView::FindPod { .. } => r.accepts(event) <==> event is MetadataFetched,
            StepView::FindReplicaSet { .. } => r.accepts(event) <==> match event {
                EventView::MetadataFetched(meta) => meta.owners().len() > 0 || meta.name is Some,
                _ => false,
            },
            StepView::FindDeployment { .. } => r.accepts(event) <==> match event {
                EventView::MetadataFetched(meta) => meta.name is Some,
                _ => false,
            },
            StepView::FindRecord { owner, .. } => r.accepts(event) <==> event is Done
                && owner is Some,
            StepView::Secret { .. } => r.accepts(event) <==> event is SecretFound,
            StepView::AuthKey { .. } => r.accepts(event) <==> event is AuthKeyCreated,
            StepView::Probe { .. } => r.accepts(event) <==> event is Answered
                || event is Unanswered,
            _ => r.accepts(event) <==> event is Done,
        },
{
}

} // verus!
