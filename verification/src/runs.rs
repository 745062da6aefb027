//! Whole reconciles: what holds of every one of them, whatever events come.

use crate::action::{ActionView, EventView};
use crate::meta::ObjectMetaView;
use crate::replaced_service::ReplacedServiceView;
use crate::step::{
    AfterScaleView, CandidateView, JobView, PlanView, ProgressView, ReconcilerView, StepView,
};
use crate::transitions::started;
use vstd::prelude::*;

verus! {

/// A reconcile from its beginning: where it stood, and the events in between.
pub struct Run {
    pub states: Seq<ProgressView>,
    pub events: Seq<EventView>,
}

impl Run {
    /// The machine after this many events, if it was not at its end.
    pub open spec fn at(self, i: int) -> ReconcilerView {
        self.states[i]->Pending_0
    }

    /// What the machine waited for after this many events.
    pub open spec fn step(self, i: int) -> StepView {
        self.at(i).step
    }

    /// What the machine asked for after this many events.
    pub open spec fn action(self, i: int) -> ActionView {
        self.states[i]->Pending_1
    }

    /// One event took the machine from one state to the next.
    pub open spec fn moves(self, i: int) -> bool {
        &&& self.states[i] is Pending
        &&& self.at(i).accepts(self.events[i])
        &&& self.at(i).advances(self.events[i], self.states[i + 1])
    }

    /// The machine began with this resource, and moved with each event.
    pub open spec fn valid(self, meta: ObjectMetaView) -> bool {
        &&& self.states.len() == self.events.len() + 1
        &&& self.states[0] == started(meta)
        &&& forall|i: int| 0 <= i < self.events.len() ==> #[trigger] self.moves(i)
    }

    /// The machine had not ended after this many events.
    pub open spec fn running(self, i: int) -> bool {
        0 <= i < self.states.len() && self.states[i] is Pending
    }
}

/// The machine keeps to the resource that it began with.
pub proof fn target_stays(meta: ObjectMetaView, run: Run, i: int)
    requires
        run.valid(meta),
        run.running(i),
    ensures
        meta.namespace is Some,
        run.at(i).target.namespace == meta.namespace->0,
        run.at(i).target.name == meta.name_any(),
    decreases i,
{
    if i > 0 {
        assert(run.moves(i - 1));
        target_stays(meta, run, i - 1);
    }
}

impl StepView {
    /// The plan that is followed in this step.
    pub open spec fn plan(self) -> Option<PlanView> {
        match self {
            StepView::Secret { plan } => Some(plan),
            StepView::AuthKey { plan } => Some(plan),
            StepView::SecretApplied { plan } => Some(plan),
            StepView::ProxyLookup { plan } => Some(plan),
            StepView::ProxyApplied { plan } => Some(plan),
            StepView::Original { plan } => Some(plan),
            StepView::Backup { plan, .. } => Some(plan),
            StepView::TestService { plan } => Some(plan),
            StepView::Probe { plan, .. } => Some(plan),
            StepView::Switch { plan } => Some(plan),
            StepView::Scale { then: AfterScaleView::Restore { plan, .. }, .. } => Some(plan),
            StepView::ScaleApplied { then: AfterScaleView::Restore { plan, .. } } => Some(plan),
            StepView::RestoreBackup { plan, .. } => Some(plan),
            StepView::RestoreApply { plan, .. } => Some(plan),
            _ => None,
        }
    }
}

/// What a reconcile takes from a resource: all from the resource as it reads with its
/// finalizer, but the service that the resource named when it was first read.
pub open spec fn job_of(first: ReplacedServiceView, resource: ReplacedServiceView) -> JobView {
    CandidateView {
        service: first.spec.service_to_replace,
        resource,
        namespace: resource.metadata.namespace->0,
        uid: resource.metadata.uid->0,
    }.job()
}

impl Run {
    /// The resource as it was first read.
    pub open spec fn first_read(self) -> ReplacedServiceView {
        self.events[0]->ResourceFound_0->0
    }

    /// The first read found a resource.
    pub open spec fn reads_resource(self) -> bool {
        self.events[0] == EventView::ResourceFound(Some(self.first_read()))
    }

    /// By this point the finalizer was on the resource, which then read so.
    pub open spec fn ensured(self, i: int, resource: ReplacedServiceView) -> bool {
        &&& resource.metadata.uid is Some
        &&& exists|j: int|
            0 <= j < i && self.step(j) is Finalizer && #[trigger] self.events[j]
                == EventView::ResourceEnsured(resource)
    }

    /// The deployment was found one event ago, as the owner of the replica set that owns
    /// the pod, and is being put on record.
    pub open spec fn records(
        self,
        j: int,
        resource: ReplacedServiceView,
        deployment: Seq<char>,
    ) -> bool {
        &&& 0 < j
        &&& self.step(j - 1) is FindDeployment
        &&& self.events[j - 1] is MetadataFetched
        &&& self.events[j - 1]->MetadataFetched_0.name == Some(deployment)
        &&& self.action(j) == (ActionView::PatchStatus {
            namespace: resource.metadata.namespace->0,
            name: resource.metadata.name_any(),
            resource: resource.with_deployment(deployment),
        })
    }

    /// By this point the deployment behind the service was on record: it was from the
    /// start, or it was found and put there.
    pub open spec fn located(
        self,
        i: int,
        resource: ReplacedServiceView,
        deployment: Seq<char>,
    ) -> bool {
        ||| resource.recorded_deployment() == Some(deployment)
        ||| exists|j: int|
            0 <= j < i && #[trigger] self.records(j, resource, deployment) && self.events[j]
                == EventView::Done
    }

    /// A plan is made of the service that the resource first named, of the resource as it
    /// read with its finalizer, and of the deployment behind the service.
    pub open spec fn planned(self, i: int, plan: PlanView) -> bool {
        self.reads_resource() && exists|resource: ReplacedServiceView| #[trigger]
            self.ensured(i, resource) && plan.job == job_of(self.first_read(), resource)
                && resource.owner_reference() == Some(plan.owner) && self.located(
                i,
                resource,
                plan.deployment,
            )
    }

    spec fn has_origin(self, i: int) -> bool {
        match self.step(i) {
            StepView::Fetch => i == 0,
            StepView::Finalizer { service } => {
                self.reads_resource() && service == self.first_read().spec.service_to_replace
            },
            StepView::FindEndpoints { candidate } => self.candidate_known(i, candidate),
            StepView::FindPod { candidate, .. } => self.candidate_known(i, candidate),
            StepView::FindReplicaSet { candidate } => self.candidate_known(i, candidate),
            StepView::FindDeployment { candidate } => self.candidate_known(i, candidate),
            StepView::FindRecord { job, owner, deployment } => {
                self.reads_resource() && exists|resource: ReplacedServiceView| #[trigger]
                    self.ensured(i, resource) && job == job_of(self.first_read(), resource)
                        && resource.owner_reference() == owner && self.records(
                        i,
                        resource,
                        deployment,
                    )
            },
            step => step.plan() is Some ==> self.planned(i, step.plan()->0),
        }
    }

    spec fn candidate_known(self, i: int, candidate: CandidateView) -> bool {
        &&& self.reads_resource()
        &&& candidate.service == self.first_read().spec.service_to_replace
        &&& self.ensured(i, candidate.resource)
        &&& candidate.namespace == candidate.resource.metadata.namespace->0
        &&& candidate.uid == candidate.resource.metadata.uid->0
    }
}

/// A plan that the machine remembers is made of the service that the resource first named,
/// of the resource as it read with its finalizer, and of the deployment behind the service.
pub proof fn plans_are_grounded(meta: ObjectMetaView, run: Run, i: int)
    requires
        run.valid(meta),
        run.running(i),
        run.step(i).plan() is Some,
    ensures
        run.planned(i, run.step(i).plan()->0),
{
    lemma_origin(meta, run, i);
}

/// What a plan is made of stays.
pub proof fn plans_stay_grounded(run: Run, j: int, i: int, plan: PlanView)
    requires
        j <= i,
        run.planned(j, plan),
    ensures
        run.planned(i, plan),
{
    let resource = choose|resource: ReplacedServiceView| #[trigger]
        run.ensured(j, resource) && plan.job == job_of(run.first_read(), resource)
            && resource.owner_reference() == Some(plan.owner) && run.located(
            j,
            resource,
            plan.deployment,
        );
    assert(run.ensured(i, resource));
    assert(run.located(i, resource, plan.deployment));
}

proof fn lemma_origin(meta: ObjectMetaView, run: Run, i: int)
    requires
        run.valid(meta),
        run.running(i),
    ensures
        run.has_origin(i),
    decreases i,
{
    if i > 0 {
        assert(run.moves(i - 1));
        lemma_origin(meta, run, i - 1);
        assert forall|resource: ReplacedServiceView| #[trigger]
            run.ensured(i - 1, resource) implies run.ensured(i, resource) by {}
        assert forall|plan: PlanView| #[trigger] run.planned(i - 1, plan) implies run.planned(
            i,
            plan,
        ) by {
            plans_stay_grounded(run, i - 1, i, plan);
        }
        let event = run.events[i - 1];
        match run.step(i - 1) {
            StepView::Finalizer { .. } => {
                if event is ResourceEnsured && event->ResourceEnsured_0.metadata.uid is Some {
                    assert(run.ensured(i, event->ResourceEnsured_0));
                }
            },
            StepView::FindDeployment { candidate } => {
                if event is MetadataFetched {
                    assert(run.ensured(i, candidate.resource));
                    assert(run.records(i, candidate.resource, event->MetadataFetched_0.name->0));
                }
            },
            StepView::FindRecord { job, owner, deployment } => {
                let resource = choose|resource: ReplacedServiceView| #[trigger]
                    run.ensured(i - 1, resource) && job == job_of(run.first_read(), resource)
                        && resource.owner_reference() == owner && run.records(
                        i - 1,
                        resource,
                        deployment,
                    );
                assert(run.ensured(i, resource));
                if event is Done {
                    assert(run.located(i, resource, deployment));
                }
            },
            _ => {},
        }
    }
}

} // verus!
