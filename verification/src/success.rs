//! What a reconcile comes to when nothing goes wrong.

use crate::action::EventView;
use crate::error::Requeue;
use crate::meta::ObjectMetaView;
use crate::port_map::port_map;
use crate::replaced_service::ReplacedServiceView;
use crate::runs::Run;
use crate::service::port_numbers;
use crate::step::{PlanView, ProgressView, StepView};
use crate::switching::services_are_written_by_name;
use vstd::prelude::*;

verus! {

impl Run {
    /// Between these two points no action failed, and every port that was tested answered
    /// with success.
    pub open spec fn smooth(self, j: int, i: int) -> bool {
        forall|k: int|
            #![trigger self.events[k]]
            j < k < i ==> !(self.events[k] is Failed) && (self.step(k) is Probe
                ==> self.answers(k))
    }

    /// The machine is on its way to take off the warning and to end ready, or has done so.
    pub open spec fn succeeds(self, i: int) -> bool {
        match self.states[i] {
            ProgressView::Pending(reconciler, _) => match reconciler.step {
                StepView::Clear => true,
                StepView::ClearApplied => true,
                StepView::Settle { ready, outcome } => {
                    ready && outcome == Ok::<Requeue, Seq<char>>(Requeue::After(30))
                },
                StepView::SettleApplied { outcome } => {
                    outcome == Ok::<Requeue, Seq<char>>(Requeue::After(30))
                },
                _ => false,
            },
            ProgressView::Finished(outcome) => {
                outcome == Ok::<Requeue, Seq<char>>(Requeue::After(30))
            },
        }
    }

    /// The machine is on its way to make the service lead to the proxy.
    pub open spec fn replaces(self, i: int, plan: PlanView) -> bool {
        &&& self.states[i] is Pending
        &&& match self.step(i) {
            StepView::Backup { plan: own, ports } => {
                &&& own == plan
                &&& ports.len() > 0
                &&& port_map(ports, plan.job.spec.ports) is Ok
            },
            StepView::TestService { plan: own } => own == plan,
            StepView::Probe { plan: own, purpose, .. } => own == plan && purpose is Switch,
            StepView::Switch { plan: own } => own == plan,
            StepView::Scale { then, .. } => then is Finish,
            StepView::ScaleApplied { then } => then is Finish,
            _ => false,
        }
    }

    /// The machine ended, or all it still has to do comes after the switch.
    pub open spec fn leads(self, i: int) -> bool {
        self.states[i] is Pending ==> !(self.step(i) is Backup || self.step(i) is TestService
            || self.step(i) is Probe || self.step(i) is Switch)
    }

    /// With this event the replaced service is let go.
    pub open spec fn releases(self, k: int) -> bool {
        self.step(k) is RemovalRelease && self.events[k] == EventView::Done
    }

    /// The machine is on its way to undo the replacement, or has done so.
    pub open spec fn undoes(self, i: int) -> bool {
        match self.states[i] {
            ProgressView::Pending(reconciler, _) => match reconciler.step {
                StepView::RemovalBackup { .. } => true,
                StepView::RemovalRestore { .. } => true,
                StepView::RemovalUnlock { .. } => true,
                StepView::RemovalDelete { .. } => true,
                StepView::Scale { then, .. } => then is Release,
                StepView::ScaleApplied { then } => then is Release,
                StepView::RemovalRelease => true,
                StepView::Settle { ready, outcome } => {
                    !ready && outcome == Ok::<Requeue, Seq<char>>(Requeue::AwaitChange)
                },
                StepView::SettleApplied { outcome } => {
                    outcome == Ok::<Requeue, Seq<char>>(Requeue::AwaitChange)
                },
                _ => false,
            },
            ProgressView::Finished(outcome) => {
                outcome == Ok::<Requeue, Seq<char>>(Requeue::AwaitChange)
            },
        }
    }
}

/// Where the original service is found, its ports can be mapped, and nothing goes wrong
/// from there on, the service comes to lead to the proxy and the reconcile ends ready.
pub proof fn smooth_replacement_succeeds(
    meta: ObjectMetaView,
    run: Run,
    j: int,
    i: int,
    plan: PlanView,
)
    requires
        run.valid(meta),
        0 <= j < i < run.states.len(),
        run.step(j) == (StepView::Original { plan }),
        run.finds_original(j, plan),
        port_numbers(run.events[j]->ServiceFound_0->0).len() > 0,
        port_map(
            port_numbers(run.events[j]->ServiceFound_0->0),
            plan.job.spec.ports,
        ) is Ok,
        run.smooth(j, i),
    ensures
        run.replaces(i, plan) || run.succeeds(i),
        run.leads(i) ==> exists|k: int| j < k < i && #[trigger] run.switches(k, plan),
    decreases i,
{
    assert(run.moves(i - 1));
    if i > j + 1 {
        assert(run.smooth(j, i - 1));
        smooth_replacement_succeeds(meta, run, j, i - 1, plan);
        assert(!(run.events[i - 1] is Failed));
        match run.step(i - 1) {
            StepView::Switch { .. } => {
                assert(run.switches(i - 1, plan));
            },
            StepView::Backup { .. } => {
                assert(run.replaces(i, plan));
            },
            StepView::Probe { .. } => {
                assert(run.replaces(i, plan));
            },
            StepView::TestService { .. } => {
                assert(run.replaces(i, plan));
            },
            _ => {
                assert(run.leads(i - 1));
            },
        }
    } else {
        assert(run.replaces(i, plan));
    }
}

/// Where the service leads to the proxy already, and nothing goes wrong from there on, the
/// reconcile ends ready.
pub proof fn smooth_confirmation_succeeds(
    meta: ObjectMetaView,
    run: Run,
    j: int,
    i: int,
    plan: PlanView,
)
    requires
        run.valid(meta),
        0 <= j < i < run.states.len(),
        run.step(j) == (StepView::Original { plan }),
        run.finds_proxy(j, plan),
        run.smooth(j, i),
    ensures
        run.succeeds(i) || {
            &&& run.states[i] is Pending
            &&& run.step(i) is Probe
            &&& run.step(i)->purpose is Confirm
        },
    decreases i,
{
    assert(run.moves(i - 1));
    if i > j + 1 {
        assert(run.smooth(j, i - 1));
        smooth_confirmation_succeeds(meta, run, j, i - 1, plan);
        assert(!(run.events[i - 1] is Failed));
    }
}

/// Where the resource is marked for deletion, and nothing goes wrong, the replacement is
/// undone and the reconcile ends without coming back.
pub proof fn smooth_removal_succeeds(
    meta: ObjectMetaView,
    run: Run,
    i: int,
    resource: ReplacedServiceView,
)
    requires
        run.valid(meta),
        0 < i < run.states.len(),
        run.removes(resource),
        run.smooth(0, i),
    ensures
        run.undoes(i),
        run.states[i] is Pending && !run.at(i).settling() || exists|k: int|
            0 < k < i && #[trigger] run.releases(k),
    decreases i,
{
    assert(run.moves(i - 1));
    if i > 1 {
        assert(run.smooth(0, i - 1));
        smooth_removal_succeeds(meta, run, i - 1, resource);
        assert(!(run.events[i - 1] is Failed));
        match run.step(i - 1) {
            StepView::RemovalRelease => {
                assert(run.releases(i - 1));
            },
            StepView::RemovalBackup { .. } => {
                assert(run.undoes(i));
            },
            StepView::RemovalDelete { .. } => {
                assert(run.undoes(i));
            },
            StepView::Scale { .. } => {
                assert(run.undoes(i));
            },
            _ => {
                assert(run.undoes(i));
            },
        }
    }
}

impl StepView {
    /// The machine has not looked at the service to replace before this step is over.
    pub open spec fn preparing(self) -> bool {
        match self {
            StepView::Fetch => true,
            StepView::Finalizer { .. } => true,
            StepView::FindEndpoints { .. } => true,
            StepView::FindPod { .. } => true,
            StepView::FindReplicaSet { .. } => true,
            StepView::FindDeployment { .. } => true,
            StepView::FindRecord { .. } => true,
            StepView::Secret { .. } => true,
            StepView::AuthKey { .. } => true,
            StepView::SecretApplied { .. } => true,
            StepView::ProxyLookup { .. } => true,
            StepView::ProxyApplied { .. } => true,
            StepView::Original { .. } => true,
            _ => false,
        }
    }
}

proof fn lemma_preparing(meta: ObjectMetaView, run: Run, i: int, j: int)
    requires
        run.valid(meta),
        0 <= i <= j,
        run.running(j),
        run.step(j).preparing(),
    ensures
        run.running(i),
        run.step(i).preparing(),
    decreases j,
{
    if i < j {
        assert(run.moves(j - 1));
        match run.step(j - 1) {
            StepView::Backup { .. } => {
                assert(!run.step(j).preparing());
            },
            StepView::Probe { .. } => {
                assert(!run.step(j).preparing());
            },
            StepView::Scale { .. } => {
                assert(!run.step(j).preparing());
            },
            StepView::ScaleApplied { .. } => {
                assert(!run.step(j).preparing());
            },
            _ => {
                assert(run.step(j - 1).preparing());
            },
        }
        lemma_preparing(meta, run, i, j - 1);
    }
}

/// A whole reconcile in which the service is found to lead to the proxy already, and in
/// which nothing goes wrong from there on, writes and deletes no service, so that the
/// backup stays the one of the original, and scales no deployment. It ends ready.
pub proof fn replaced_service_stays_replaced(
    meta: ObjectMetaView,
    run: Run,
    j: int,
    i: int,
    plan: PlanView,
)
    requires
        run.valid(meta),
        0 <= j < run.events.len(),
        0 <= i < run.states.len(),
        run.step(j) == (StepView::Original { plan }),
        run.finds_proxy(j, plan),
        run.smooth(j, run.events.len() as int),
    ensures
        match run.states[i] {
            ProgressView::Pending(reconciler, action) => {
                &&& !(action is ApplyService)
                &&& !(action is DeleteService)
                &&& !(reconciler.step is Scale)
                &&& !(reconciler.step is ScaleApplied)
                &&& j < i && reconciler.step is Settle ==> run.reports_ready(i)
            },
            ProgressView::Finished(outcome) => {
                outcome == Ok::<Requeue, Seq<char>>(Requeue::After(30))
            },
        },
{
    assert(run.moves(j));
    if i <= j {
        lemma_preparing(meta, run, i, j);
        if run.action(i) is ApplyService {
            services_are_written_by_name(
                meta,
                run,
                i,
                run.action(i)->ApplyService_namespace,
                run.action(i)->ApplyService_name,
                run.action(i)->service,
            );
        }
        if i > 0 {
            assert(run.moves(i - 1));
        }
    } else {
        assert(run.smooth(j, i));
        smooth_confirmation_succeeds(meta, run, j, i, plan);
        assert(run.moves(i - 1));
        if run.states[i] is Pending && run.action(i) is ApplyService {
            services_are_written_by_name(
                meta,
                run,
                i,
                run.action(i)->ApplyService_namespace,
                run.action(i)->ApplyService_name,
                run.action(i)->service,
            );
        }
    }
}

} // verus!
