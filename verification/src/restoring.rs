//! When the original service stands again: after the proxy failed, and before a replaced
//! service is let go.

use crate::action::{ActionView, EventView, Finalized};
use crate::meta::ObjectMetaView;
use crate::probe::{answer_failure, silence_failure};
use crate::replaced_service::{backup_name, ReplacedServiceView};
use crate::runs::{target_stays, Run};
use crate::service::service_copy;
use crate::step::{AfterScaleView, PlanView, RemovalView, StepView};
use vstd::prelude::*;

verus! {

impl Run {
    /// A deployment of this name is being looked for.
    pub open spec fn seeks_deployment(self, j: int, name: Seq<char>) -> bool {
        self.action(j) == ActionView::GetDeployment {
            namespace: self.at(j).target.namespace,
            name,
        }
    }

    /// By this point the deployment that was looked for ran again, or it was gone.
    pub open spec fn brings_up(self, i: int, j: int) -> bool {
        &&& self.events[j] is DeploymentFound
        &&& match self.events[j]->DeploymentFound_0 {
            None => j < i,
            Some(deployment) => {
                &&& j + 1 < i
                &&& self.action(j + 1) == deployment.scaled(1).apply()
                &&& self.events[j + 1] == EventView::Done
            },
        }
    }

    /// By this point the deployment of this name ran again, or it was gone.
    pub open spec fn up(self, i: int, name: Seq<char>) -> bool {
        exists|j: int|
            0 <= j < i && #[trigger] self.seeks_deployment(j, name) && self.brings_up(i, j)
    }

    /// With this event a port of the proxy turned out not to work, though the service
    /// leads to it.
    pub open spec fn fails(self, j: int, plan: PlanView, failure: Seq<char>) -> bool {
        &&& self.step(j) is Probe
        &&& self.step(j).plan() == Some(plan)
        &&& self.step(j)->purpose is Confirm
        &&& match self.events[j] {
            EventView::Answered(status) => answer_failure(status) == Some(failure),
            EventView::Unanswered(reason) => silence_failure(reason) == failure,
            _ => false,
        }
    }

    /// By this point the proxy had failed though the service leads to it.
    pub open spec fn failed(self, i: int, plan: PlanView, failure: Seq<char>) -> bool {
        exists|j: int| 0 <= j < i && #[trigger] self.fails(j, plan, failure)
    }

    /// The backup that was fetched one event ago takes the place of the service again.
    pub open spec fn restores(self, i: int, plan: PlanView) -> bool {
        &&& 0 < i
        &&& self.action(i - 1) == (ActionView::FetchService {
            namespace: self.at(i).target.namespace,
            name: plan.job.spec.backup_service_name(),
        })
        &&& self.events[i - 1] is ServiceFetched
        &&& self.action(i) == service_copy(
            plan.job.spec.service_to_replace,
            self.events[i - 1]->ServiceFetched_0,
        ).apply()
    }

    /// The resource was marked for deletion when it was read.
    pub open spec fn removes(self, resource: ReplacedServiceView) -> bool {
        &&& self.events[0] == EventView::ResourceFound(Some(resource))
        &&& resource.metadata.deletion_timestamp is Some
    }

    /// The backup of the service is looked for.
    pub open spec fn seeks_backup(self, service: Seq<char>) -> bool {
        self.action(1) == (ActionView::GetService {
            namespace: self.at(1).target.namespace,
            name: backup_name(service),
        })
    }

    /// By this point a backup was found and the service was restored from it.
    pub open spec fn restored_from_backup(self, i: int, service: Seq<char>) -> bool {
        &&& i > 2
        &&& self.seeks_backup(service)
        &&& self.events[1] is ServiceFound
        &&& self.events[1]->ServiceFound_0 is Some
        &&& self.action(2) == service_copy(service, self.events[1]->ServiceFound_0->0).apply()
        &&& self.events[2] is ServiceApplied
    }

    /// By this point the backup was unlocked.
    pub open spec fn backup_unlocked(self, i: int, service: Seq<char>) -> bool {
        &&& i > 3
        &&& self.action(3) == (ActionView::RemoveFinalizer {
            kind: Finalized::Service,
            namespace: self.at(3).target.namespace,
            name: backup_name(service),
        })
        &&& self.events[3] == EventView::Done
    }

    /// By this point the backup was deleted.
    pub open spec fn backup_deleted(self, i: int, service: Seq<char>) -> bool {
        &&& i > 4
        &&& self.action(4) == (ActionView::DeleteService {
            namespace: self.at(4).target.namespace,
            name: backup_name(service),
        })
        &&& self.events[4] == EventView::Done
    }

    /// By this point the service stood without a backup: it was restored and its backup
    /// deleted, or there was no backup.
    pub open spec fn service_back(self, i: int, service: Seq<char>) -> bool {
        ||| {
            &&& i > 1
            &&& self.seeks_backup(service)
            &&& self.events[1] == EventView::ServiceFound(None)
        }
        ||| {
            &&& self.restored_from_backup(i, service)
            &&& self.backup_unlocked(i, service)
            &&& self.backup_deleted(i, service)
        }
    }

    spec fn removal_of(self, removal: RemovalView) -> bool {
        exists|resource: ReplacedServiceView| #[trigger]
            self.removes(resource) && removal.service == resource.spec.service_to_replace
                && removal.deployment == resource.recorded_deployment()
    }

    spec fn orderly(self, i: int) -> bool {
        match self.step(i) {
            StepView::Fetch => i == 0,
            StepView::RemovalBackup { removal } => {
                &&& i == 1
                &&& self.removal_of(removal)
                &&& self.seeks_backup(removal.service)
            },
            StepView::RemovalRestore { removal } => {
                &&& i == 2
                &&& self.removal_of(removal)
                &&& self.seeks_backup(removal.service)
                &&& self.events[1] is ServiceFound
                &&& self.events[1]->ServiceFound_0 is Some
                &&& self.action(2) == service_copy(
                    removal.service,
                    self.events[1]->ServiceFound_0->0,
                ).apply()
            },
            StepView::RemovalUnlock { removal } => {
                &&& i == 3
                &&& self.removal_of(removal)
                &&& self.restored_from_backup(i, removal.service)
                &&& self.action(3) == (ActionView::RemoveFinalizer {
                    kind: Finalized::Service,
                    namespace: self.at(3).target.namespace,
                    name: backup_name(removal.service),
                })
            },
            StepView::RemovalDelete { removal } => {
                &&& i == 4
                &&& self.removal_of(removal)
                &&& self.restored_from_backup(i, removal.service)
                &&& self.backup_unlocked(i, removal.service)
                &&& self.action(4) == (ActionView::DeleteService {
                    namespace: self.at(4).target.namespace,
                    name: backup_name(removal.service),
                })
            },
            StepView::Scale { replicas, then: AfterScaleView::Release } => {
                &&& replicas == 1
                &&& exists|removal: RemovalView| #[trigger]
                    self.removal_of(removal) && self.service_back(i, removal.service)
                        && removal.deployment is Some && self.seeks_deployment(
                        i,
                        removal.deployment->0,
                    )
            },
            StepView::ScaleApplied { then: AfterScaleView::Release } => {
                exists|removal: RemovalView| #[trigger]
                    self.removal_of(removal) && self.service_back(i, removal.service)
                        && removal.deployment is Some && self.scales_up(i, removal.deployment->0)
            },
            StepView::RemovalRelease => {
                exists|removal: RemovalView| #[trigger]
                    self.removal_of(removal) && self.service_back(i, removal.service) && (
                    removal.deployment is Some ==> self.up(i, removal.deployment->0))
            },
            StepView::Scale { replicas, then: AfterScaleView::Restore { plan, failure } } => {
                &&& replicas == 1
                &&& self.failed(i, plan, failure)
                &&& self.seeks_deployment(i, plan.deployment)
            },
            StepView::ScaleApplied { then: AfterScaleView::Restore { plan, failure } } => {
                &&& self.failed(i, plan, failure)
                &&& self.scales_up(i, plan.deployment)
            },
            StepView::RestoreBackup { plan, failure } => {
                &&& self.failed(i, plan, failure)
                &&& self.up(i, plan.deployment)
                &&& self.action(i) == (ActionView::FetchService {
                    namespace: self.at(i).target.namespace,
                    name: plan.job.spec.backup_service_name(),
                })
            },
            StepView::RestoreApply { plan, failure } => {
                &&& self.failed(i, plan, failure)
                &&& self.up(i, plan.deployment)
                &&& self.restores(i, plan)
            },
            _ => true,
        }
    }

    spec fn scales_up(self, i: int, name: Seq<char>) -> bool {
        &&& 0 < i
        &&& self.seeks_deployment(i - 1, name)
        &&& self.events[i - 1] is DeploymentFound
        &&& self.events[i - 1]->DeploymentFound_0 is Some
        &&& self.action(i) == self.events[i - 1]->DeploymentFound_0->0.scaled(1).apply()
    }
}

proof fn lemma_stays_up(run: Run, i: int)
    requires
        0 < i,
    ensures
        forall|name: Seq<char>| #[trigger] run.up(i - 1, name) ==> run.up(i, name),
        forall|plan: PlanView, failure: Seq<char>| #[trigger]
            run.failed(i - 1, plan, failure) ==> run.failed(i, plan, failure),
        forall|service: Seq<char>| #[trigger]
            run.service_back(i - 1, service) ==> run.service_back(i, service),
{
    assert forall|name: Seq<char>| #[trigger] run.up(i - 1, name) implies run.up(i, name) by {
        let j = choose|j: int|
            0 <= j < i - 1 && #[trigger] run.seeks_deployment(j, name) && run.brings_up(i - 1, j);
        assert(run.brings_up(i, j));
    }
}

proof fn lemma_orderly(meta: ObjectMetaView, run: Run, i: int)
    requires
        run.valid(meta),
        run.running(i),
    ensures
        run.orderly(i),
    decreases i,
{
    if i > 0 {
        assert(run.moves(i - 1));
        lemma_orderly(meta, run, i - 1);
        lemma_stays_up(run, i);
        target_stays(meta, run, i - 1);
        target_stays(meta, run, i);
        let event = run.events[i - 1];
        match run.step(i - 1) {
            StepView::Fetch => {
                if event is ResourceFound && event->ResourceFound_0 is Some {
                    let resource = event->ResourceFound_0->0;
                    if resource.metadata.deletion_timestamp is Some {
                        assert(run.removes(resource));
                    }
                }
                assert(run.orderly(i));
            },
            StepView::RemovalBackup { removal } => {
                assert(run.removal_of(removal));
                assert(run.orderly(i));
            },
            StepView::RemovalRestore { removal } => {
                assert(run.orderly(i));
            },
            StepView::RemovalUnlock { removal } => {
                assert(run.orderly(i));
            },
            StepView::RemovalDelete { removal } => {
                assert(run.removal_of(removal));
                assert(run.orderly(i));
            },
            StepView::Probe { plan, index, purpose } => {
                if purpose is Confirm && run.step(i) is Scale {
                    assert(run.fails(i - 1, plan, run.step(i)->Scale_then->failure));
                }
                assert(run.orderly(i));
            },
            StepView::Scale { replicas, then: AfterScaleView::Release } => {
                let removal = choose|removal: RemovalView| #[trigger]
                    run.removal_of(removal) && run.service_back(i - 1, removal.service)
                        && removal.deployment is Some && run.seeks_deployment(
                        i - 1,
                        removal.deployment->0,
                    );
                assert(run.removal_of(removal));
                assert(run.service_back(i, removal.service));
                if event == EventView::DeploymentFound(None) {
                    assert(run.brings_up(i, i - 1));
                    assert(run.up(i, removal.deployment->0));
                }
                assert(run.orderly(i));
            },
            StepView::ScaleApplied { then: AfterScaleView::Release } => {
                let removal = choose|removal: RemovalView| #[trigger]
                    run.removal_of(removal) && run.service_back(i - 1, removal.service)
                        && removal.deployment is Some && run.scales_up(
                        i - 1,
                        removal.deployment->0,
                    );
                assert(run.removal_of(removal));
                assert(run.service_back(i, removal.service));
                if event is Done {
                    assert(run.brings_up(i, i - 2));
                    assert(run.up(i, removal.deployment->0));
                }
                assert(run.orderly(i));
            },
            StepView::Scale { replicas, then: AfterScaleView::Restore { plan, failure } } => {
                if event == EventView::DeploymentFound(None) {
                    assert(run.brings_up(i, i - 1));
                    assert(run.up(i, plan.deployment));
                }
                assert(run.orderly(i));
            },
            StepView::ScaleApplied { then: AfterScaleView::Restore { plan, failure } } => {
                if event is Done {
                    assert(run.brings_up(i, i - 2));
                    assert(run.up(i, plan.deployment));
                }
                assert(run.orderly(i));
            },
            _ => {
                assert(run.orderly(i));
            },
        }
    }
}

/// The original service takes its place again only when the proxy failed, and when its
/// deployment was scaled up before, unless that is gone. It is a copy of the backup.
pub proof fn restoring_follows_a_failure(
    meta: ObjectMetaView,
    run: Run,
    i: int,
    plan: PlanView,
    failure: Seq<char>,
)
    requires
        run.valid(meta),
        run.running(i),
        run.step(i) == (StepView::RestoreApply { plan, failure }),
    ensures
        run.failed(i, plan, failure),
        run.up(i, plan.deployment),
        run.restores(i, plan),
{
    lemma_orderly(meta, run, i);
}

/// A backup is deleted only when the service was restored from it before.
pub proof fn backup_outlives_the_restoring(
    meta: ObjectMetaView,
    run: Run,
    i: int,
    removal: RemovalView,
)
    requires
        run.valid(meta),
        run.running(i),
        run.step(i) == (StepView::RemovalDelete { removal }),
    ensures
        run.restored_from_backup(i, removal.service),
        run.backup_unlocked(i, removal.service),
{
    lemma_orderly(meta, run, i);
}

/// A replaced service is let go only when it is marked for deletion, when its service
/// stands again without a backup, and when the deployment on record was scaled up, unless
/// that is gone.
pub proof fn release_comes_last(meta: ObjectMetaView, run: Run, i: int)
    requires
        run.valid(meta),
        run.running(i),
        run.step(i) is RemovalRelease,
    ensures
        exists|resource: ReplacedServiceView| #[trigger]
            run.removes(resource) && run.service_back(i, resource.spec.service_to_replace) && (
            resource.recorded_deployment() is Some ==> run.up(
                i,
                resource.recorded_deployment()->0,
            )) && (resource.status is Some && resource.status->0.replaced_deployment is Some
                ==> run.up(i, resource.status->0.replaced_deployment->0)),
{
    lemma_orderly(meta, run, i);
    let removal = choose|removal: RemovalView| #[trigger]
        run.removal_of(removal) && run.service_back(i, removal.service) && (
        removal.deployment is Some ==> run.up(i, removal.deployment->0));
    let resource = choose|resource: ReplacedServiceView| #[trigger]
        run.removes(resource) && removal.service == resource.spec.service_to_replace
            && removal.deployment == resource.recorded_deployment();
    assert(run.removes(resource));
}

} // verus!
