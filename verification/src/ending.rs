//! How a reconcile ends: always, and with what.

use crate::action::{ActionView, EventView};
use crate::error::Requeue;
use crate::meta::ObjectMetaView;
use crate::runs::Run;
use crate::step::{AfterScaleView, ProgressView, PurposeView, StepView};
use vstd::prelude::*;

verus! {

impl StepView {
    /// How many events can still come before the end, given how many ports are tested.
    pub open spec fn distance(self, ports: int) -> int {
        match self {
            StepView::Fetch => 22 + ports,
            StepView::Finalizer { .. } => 21 + ports,
            StepView::FindEndpoints { .. } => 20 + ports,
            StepView::FindPod { .. } => 19 + ports,
            StepView::FindReplicaSet { .. } => 18 + ports,
            StepView::FindDeployment { .. } => 17 + ports,
            StepView::FindRecord { .. } => 16 + ports,
            StepView::Secret { .. } => 15 + ports,
            StepView::AuthKey { .. } => 14 + ports,
            StepView::SecretApplied { .. } => 13 + ports,
            StepView::ProxyLookup { .. } => 12 + ports,
            StepView::ProxyApplied { .. } => 11 + ports,
            StepView::Original { .. } => 10 + ports,
            StepView::Backup { .. } => 9 + ports,
            StepView::TestService { .. } => 8 + ports,
            StepView::Probe { index, purpose: PurposeView::Confirm, .. } => 8 + ports - index,
            StepView::Probe { index, .. } => 7 + ports - index,
            StepView::Switch { .. } => 7,
            StepView::Scale { then: AfterScaleView::Restore { .. }, .. } => 8,
            StepView::ScaleApplied { then: AfterScaleView::Restore { .. } } => 7,
            StepView::RestoreBackup { .. } => 6,
            StepView::RestoreApply { .. } => 5,
            StepView::RemovalBackup { .. } => 9,
            StepView::RemovalRestore { .. } => 8,
            StepView::RemovalUnlock { .. } => 7,
            StepView::RemovalDelete { .. } => 6,
            StepView::Scale { then: AfterScaleView::Release, .. } => 5,
            StepView::ScaleApplied { then: AfterScaleView::Release } => 4,
            StepView::RemovalRelease => 3,
            StepView::Scale { .. } => 6,
            StepView::ScaleApplied { .. } => 5,
            StepView::Warn { .. } => 4,
            StepView::WarnApplied => 3,
            StepView::Clear => 4,
            StepView::ClearApplied => 3,
            StepView::Settle { .. } => 2,
            StepView::SettleApplied { .. } => 1,
        }
    }
}

impl Run {
    /// The number of ports that the resource lists, as it read with its finalizer.
    pub open spec fn ports(self) -> int {
        if self.events.len() > 1 && self.events[1] is ResourceEnsured {
            self.events[1]->ResourceEnsured_0.spec.ports.len() as int
        } else {
            0
        }
    }

    spec fn within_reach(self, i: int) -> bool {
        &&& self.step(i) is Fetch ==> i == 0
        &&& self.step(i) is Finalizer ==> i == 1
        &&& i + self.step(i).distance(self.ports()) <= 22 + self.ports()
        &&& match self.step(i) {
            StepView::FindEndpoints { candidate } => {
                candidate.resource.spec.ports.len() == self.ports()
            },
            StepView::FindPod { candidate, .. } => {
                candidate.resource.spec.ports.len() == self.ports()
            },
            StepView::FindReplicaSet { candidate } => {
                candidate.resource.spec.ports.len() == self.ports()
            },
            StepView::FindDeployment { candidate } => {
                candidate.resource.spec.ports.len() == self.ports()
            },
            StepView::FindRecord { job, .. } => job.spec.ports.len() == self.ports(),
            StepView::Probe { plan, index, .. } => {
                index < plan.job.spec.ports.len() == self.ports()
            },
            step => step.plan() is Some ==> step.plan()->0.job.spec.ports.len() == self.ports(),
        }
    }
}

proof fn lemma_within_reach(meta: ObjectMetaView, run: Run, i: int)
    requires
        run.valid(meta),
        run.running(i),
    ensures
        run.within_reach(i),
    decreases i,
{
    if i > 0 {
        assert(run.moves(i - 1));
        lemma_within_reach(meta, run, i - 1);
        match run.step(i - 1) {
            StepView::Fetch => {
                assert(run.within_reach(i));
            },
            StepView::Finalizer { .. } => {
                assert(run.within_reach(i));
            },
            StepView::FindEndpoints { .. } => {
                assert(run.within_reach(i));
            },
            StepView::FindPod { .. } => {
                assert(run.within_reach(i));
            },
            StepView::FindReplicaSet { .. } => {
                assert(run.within_reach(i));
            },
            StepView::Secret { .. } => {
                assert(run.within_reach(i));
            },
            StepView::ProxyLookup { .. } => {
                assert(run.within_reach(i));
            },
            StepView::Original { .. } => {
                assert(run.within_reach(i));
            },
            StepView::Backup { .. } => {
                assert(run.within_reach(i));
            },
            StepView::TestService { .. } => {
                assert(run.within_reach(i));
            },
            StepView::Probe { .. } => {
                assert(run.within_reach(i));
            },
            StepView::Scale { .. } => {
                assert(run.within_reach(i));
            },
            StepView::ScaleApplied { .. } => {
                assert(run.within_reach(i));
            },
            _ => {
                assert(run.within_reach(i));
            },
        }
    }
}

/// Every reconcile ends: it takes 22 events at the most, and one more for each port that
/// the resource lists.
pub proof fn every_run_ends(meta: ObjectMetaView, run: Run)
    requires
        run.valid(meta),
    ensures
        run.events.len() <= 22 + run.ports(),
{
    let last = run.events.len() - 1;
    if last >= 0 {
        assert(run.moves(last));
        lemma_within_reach(meta, run, last);
        assert(run.step(last).distance(run.ports()) >= 1);
    }
}

impl Run {
    /// The service stands replaced, or stands as it was, or is gone: why the machine
    /// settles with this outcome.
    pub open spec fn settles_for(
        self,
        i: int,
        ready: bool,
        outcome: Result<Requeue, Seq<char>>,
    ) -> bool {
        let event = self.events[i - 1];
        match outcome {
            Err(error) => {
                &&& !ready
                &&& {
                    ||| event == EventView::Failed(error)
                    ||| {
                        &&& event is ResourceEnsured
                        &&& event->ResourceEnsured_0.metadata.uid is None
                        &&& error == "Resource does not have a uid assigned"@
                    }
                }
            },
            Ok(Requeue::AwaitChange) => {
                &&& !ready
                &&& {
                    ||| i == 1 && event == EventView::ResourceFound(None)
                    ||| self.step(i - 1) is RemovalRelease && event == EventView::Done
                }
            },
            Ok(Requeue::After(seconds)) => {
                &&& seconds == 30
                &&& ready ==> self.step(i - 1) is Clear || self.step(i - 1) is ClearApplied
                &&& !ready ==> self.step(i - 1) is Warn || self.step(i - 1) is WarnApplied
            },
        }
    }

    /// This event failed while the machine was not settling yet.
    pub open spec fn breaks(self, j: int, error: Seq<char>) -> bool {
        &&& 0 <= j < self.events.len()
        &&& self.events[j] == EventView::Failed(error)
        &&& !self.at(j).settling()
    }
}

/// A reconcile settles for an error only when an action failed or the resource has no
/// uid; it awaits a change only when the resource is gone or was let go; it comes back in
/// half a minute, ready when it took off the warning and not ready when it put one on.
pub proof fn settling_has_a_reason(
    meta: ObjectMetaView,
    run: Run,
    i: int,
    ready: bool,
    outcome: Result<Requeue, Seq<char>>,
)
    requires
        run.valid(meta),
        run.running(i),
        run.step(i) == (StepView::Settle { ready, outcome }),
    ensures
        0 < i,
        run.settles_for(i, ready, outcome),
        run.action(i) == (ActionView::GetResource {
            namespace: run.at(i).target.namespace,
            name: run.at(i).target.name,
        }),
{
    if i > 0 {
        assert(run.moves(i - 1));
        lemma_within_reach(meta, run, i - 1);
    }
}

/// What a reconcile says of itself at its end is what it settled for.
pub proof fn settled_state_is_reported(
    meta: ObjectMetaView,
    run: Run,
    i: int,
    outcome: Result<Requeue, Seq<char>>,
)
    requires
        run.valid(meta),
        run.running(i),
        run.step(i) == (StepView::SettleApplied { outcome }),
    ensures
        1 < i,
        run.step(i - 1) is Settle,
        run.step(i - 1)->Settle_outcome == outcome,
        run.events[i - 1] is ResourceFound,
        run.events[i - 1]->ResourceFound_0 is Some,
        run.action(i) == (ActionView::PatchStatus {
            namespace: run.at(i).target.namespace,
            name: run.at(i).target.name,
            resource: run.events[i - 1]->ResourceFound_0->0.with_active(
                run.step(i - 1)->ready,
            ),
        }),
{
    if i > 0 {
        assert(run.moves(i - 1));
        if i == 1 {
            assert(run.states[0] == crate::transitions::started(meta));
        }
    }
}

/// A reconcile that broke reports that very error, unless settling failed too, and all
/// that it still does is to say that the service is not active.
pub proof fn failures_are_reported(
    meta: ObjectMetaView,
    run: Run,
    j: int,
    i: int,
    error: Seq<char>,
)
    requires
        run.valid(meta),
        run.breaks(j, error),
        j < i < run.states.len(),
    ensures
        match run.states[i] {
            ProgressView::Pending(reconciler, action) => {
                ||| {
                    &&& reconciler.step == (StepView::Settle {
                        ready: false,
                        outcome: Err(error),
                    })
                    &&& action is GetResource
                }
                ||| {
                    &&& reconciler.step == (StepView::SettleApplied { outcome: Err(error) })
                    &&& run.events[i - 1] is ResourceFound
                    &&& run.events[i - 1]->ResourceFound_0 is Some
                    &&& action == (ActionView::PatchStatus {
                        namespace: reconciler.target.namespace,
                        name: reconciler.target.name,
                        resource: run.events[i - 1]->ResourceFound_0->0.with_active(false),
                    })
                }
            },
            ProgressView::Finished(outcome) => {
                ||| outcome == Err::<Requeue, Seq<char>>(error)
                ||| run.events[i - 1] is Failed && outcome == Err::<Requeue, Seq<char>>(
                    run.events[i - 1]->Failed_0,
                )
            },
        },
    decreases i,
{
    assert(run.moves(i - 1));
    if i > j + 1 {
        failures_are_reported(meta, run, j, i - 1, error);
    }
}

/// A reconcile that ends in an error met a failure, or had a resource without a namespace
/// or without a uid.
pub proof fn errors_have_a_cause(meta: ObjectMetaView, run: Run, i: int, error: Seq<char>)
    requires
        run.valid(meta),
        0 <= i < run.states.len(),
        run.states[i] == ProgressView::Finished(Err(error)),
    ensures
        meta.namespace is None || exists|j: int|
            0 <= j < i && match #[trigger] run.events[j] {
                EventView::Failed(failure) => failure == error,
                EventView::ResourceEnsured(resource) => resource.metadata.uid is None,
                _ => false,
            },
{
    if i > 0 {
        assert(run.moves(i - 1));
        match run.step(i - 1) {
            StepView::Settle { ready, outcome } => {
                if !(run.events[i - 1] is Failed) {
                    settling_has_a_reason(meta, run, i - 1, ready, outcome);
                    assert(run.moves(i - 2));
                }
            },
            StepView::SettleApplied { outcome } => {
                if !(run.events[i - 1] is Failed) {
                    settled_state_is_reported(meta, run, i - 1, outcome);
                    assert(run.moves(i - 2));
                    settling_has_a_reason(meta, run, i - 2, run.step(i - 2)->ready, outcome);
                }
            },
            _ => {},
        }
    }
}

impl StepView {
    /// The machine undoes a replacement in this step.
    pub open spec fn undoing(self) -> bool {
        match self {
            StepView::RemovalBackup { .. } => true,
            StepView::RemovalRestore { .. } => true,
            StepView::RemovalUnlock { .. } => true,
            StepView::RemovalDelete { .. } => true,
            StepView::RemovalRelease => true,
            StepView::Scale { then, .. } => then is Release,
            StepView::ScaleApplied { then } => then is Release,
            _ => false,
        }
    }
}

impl Run {
    /// The first read found nothing, or a resource marked for deletion.
    pub open spec fn leaving(self) -> bool {
        match self.events[0] {
            EventView::ResourceFound(None) => true,
            EventView::ResourceFound(Some(resource)) => {
                resource.metadata.deletion_timestamp is Some
            },
            _ => false,
        }
    }

    /// The reconcile ended with this, or it has only its last report left before it does.
    pub open spec fn comes_to(self, i: int, requeue: Requeue) -> bool {
        match self.states[i] {
            ProgressView::Finished(outcome) => outcome == Ok::<Requeue, Seq<char>>(requeue),
            ProgressView::Pending(reconciler, _) => match reconciler.step {
                StepView::Settle { outcome, .. } => {
                    outcome == Ok::<Requeue, Seq<char>>(requeue)
                },
                StepView::SettleApplied { outcome } => {
                    outcome == Ok::<Requeue, Seq<char>>(requeue)
                },
                _ => false,
            },
        }
    }

    /// The machine is about to report that the service is active.
    pub open spec fn reports_ready(self, i: int) -> bool {
        &&& self.states[i] is Pending
        &&& self.step(i) is Settle
        &&& self.step(i)->ready
    }

    spec fn fits(self, outcome: Result<Requeue, Seq<char>>) -> bool {
        match outcome {
            Ok(requeue) => requeue == if self.leaving() {
                Requeue::AwaitChange
            } else {
                Requeue::After(30)
            },
            Err(_) => true,
        }
    }

    spec fn on_course(self, i: int) -> bool {
        match self.states[i] {
            ProgressView::Finished(outcome) => self.fits(outcome),
            ProgressView::Pending(reconciler, _) => match reconciler.step {
                StepView::Fetch => false,
                StepView::Settle { ready, outcome } => {
                    &&& self.fits(outcome)
                    &&& ready ==> outcome == Ok::<Requeue, Seq<char>>(Requeue::After(30))
                },
                StepView::SettleApplied { outcome } => self.fits(outcome),
                step => self.leaving() == step.undoing(),
            },
        }
    }
}

proof fn lemma_on_course(meta: ObjectMetaView, run: Run, i: int)
    requires
        run.valid(meta),
        0 < i < run.states.len(),
    ensures
        run.on_course(i),
    decreases i,
{
    assert(run.moves(i - 1));
    if i > 1 {
        lemma_on_course(meta, run, i - 1);
        match run.step(i - 1) {
            StepView::Finalizer { .. } => {
                assert(run.on_course(i));
            },
            StepView::FindEndpoints { .. } => {
                assert(run.on_course(i));
            },
            StepView::Original { .. } => {
                assert(run.on_course(i));
            },
            StepView::Backup { .. } => {
                assert(run.on_course(i));
            },
            StepView::Probe { .. } => {
                assert(run.on_course(i));
            },
            StepView::Scale { .. } => {
                assert(run.on_course(i));
            },
            StepView::ScaleApplied { .. } => {
                assert(run.on_course(i));
            },
            StepView::Settle { .. } => {
                assert(run.on_course(i));
            },
            _ => {
                assert(run.on_course(i));
            },
        }
    }
}

/// Unless it ends in an error, a reconcile awaits a change if and only if its first read
/// found nothing or a resource marked for deletion. In every other case it comes back in
/// half a minute, and only then can it report that the service is active.
pub proof fn first_read_decides_the_end(meta: ObjectMetaView, run: Run, i: int, requeue: Requeue)
    requires
        run.valid(meta),
        0 <= i < run.states.len(),
        run.comes_to(i, requeue),
    ensures
        0 < i,
        requeue == Requeue::AwaitChange <==> run.leaving(),
        requeue == Requeue::After(30) <==> !run.leaving(),
        run.reports_ready(i) ==> requeue == Requeue::After(30),
{
    if i > 0 {
        lemma_on_course(meta, run, i);
    }
}

} // verus!
