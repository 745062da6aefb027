//! When a service is made to lead to the proxy: never before its backup stands and every
//! port of the proxy has answered.

use crate::action::ActionView;
use crate::conduct::{found_service_is_confirmed_or_backed_up, test_service_offers_every_port};
use crate::error::Requeue;
use crate::meta::ObjectMetaView;
use crate::probe::{ignores_certificates, successful, test_url};
use crate::runs::{plans_are_grounded, plans_stay_grounded, target_stays, Run};
use crate::replaced_service::service_names_differ;
use crate::service::{offered_ports, proxy_service, service_copy, ServicePortView, ServiceView};
use crate::step::{AfterScaleView, JobView, PlanView, PurposeView, StepView};
use vstd::prelude::*;

verus! {

impl Run {
    /// With this event the service to replace was found, and it was not a proxy yet.
    pub open spec fn finds_original(self, j: int, plan: PlanView) -> bool {
        &&& self.action(j) == ActionView::GetService {
            namespace: self.at(j).target.namespace,
            name: plan.job.spec.service_to_replace,
        }
        &&& self.events[j] is ServiceFound
        &&& self.events[j]->ServiceFound_0 is Some
        &&& !self.events[j]->ServiceFound_0->0.metadata.owned_by(plan.job.uid)
    }

    /// With this event the service to replace was found, and it led to the proxy already.
    pub open spec fn finds_proxy(self, j: int, plan: PlanView) -> bool {
        &&& self.action(j) == ActionView::GetService {
            namespace: self.at(j).target.namespace,
            name: plan.job.spec.service_to_replace,
        }
        &&& self.events[j] is ServiceFound
        &&& self.events[j]->ServiceFound_0 is Some
        &&& self.events[j]->ServiceFound_0->0.metadata.owned_by(plan.job.uid)
    }

    /// The service that was found one event ago is being copied to its backup.
    pub open spec fn backs_up(self, j: int, plan: PlanView) -> bool {
        &&& 0 < j
        &&& self.finds_original(j - 1, plan)
        &&& self.action(j) == service_copy(
            plan.job.spec.backup_service_name(),
            self.events[j - 1]->ServiceFound_0->0,
        ).apply()
    }

    /// By this point the backup of the service to replace stood.
    pub open spec fn backed_up(self, i: int, plan: PlanView) -> bool {
        exists|j: int|
            0 < j < i && #[trigger] self.backs_up(j, plan) && self.events[j] is ServiceApplied
    }

    /// The service through which the proxy is tested is being applied.
    pub open spec fn applies_test_service(self, j: int, plan: PlanView) -> bool {
        &&& self.step(j) == (StepView::TestService { plan })
        &&& exists|ports|
            self.action(j) == #[trigger] proxy_service(
                plan.job.spec.test_service_name(),
                self.at(j).target.namespace,
                plan.owner,
                ports,
            ).apply()
    }

    /// By this point the service through which the proxy is tested stood, and read back
    /// with these ports.
    pub open spec fn test_service_stands(
        self,
        i: int,
        plan: PlanView,
        ports: Option<Seq<ServicePortView>>,
    ) -> bool {
        exists|j: int|
            0 <= j < i && #[trigger] self.applies_test_service(j, plan) && self.events[j]
                is ServiceApplied && offered_ports(self.events[j]->ServiceApplied_0) == ports
    }

    /// This port of the proxy is being tested.
    pub open spec fn tests(self, j: int, plan: PlanView, port: int) -> bool {
        self.action(j) == ActionView::TestUrl {
            url: test_url(
                plan.job.spec,
                plan.job.namespace,
                plan.job.spec.ports[port].proxy_port,
            ),
            ignore_certificate_errors: ignores_certificates(plan.job.spec),
        }
    }

    /// With this event the port of the proxy that was tested answered with success.
    pub open spec fn answers(self, j: int) -> bool {
        self.events[j] is Answered && successful(self.events[j]->Answered_0)
    }

    /// By this point this port of the proxy had answered with success.
    pub open spec fn works(self, i: int, plan: PlanView, port: int) -> bool {
        exists|j: int| 0 <= j < i && #[trigger] self.tests(j, plan, port) && self.answers(j)
    }

    /// By this point each of the first ports of the proxy had answered with success.
    pub open spec fn ports_work(self, i: int, plan: PlanView, count: int) -> bool {
        forall|port: int| 0 <= port < count ==> #[trigger] self.works(i, plan, port)
    }

    /// With this event the service leads to the proxy.
    pub open spec fn switches(self, j: int, plan: PlanView) -> bool {
        self.step(j) == (StepView::Switch { plan }) && self.events[j] is ServiceApplied
    }

    /// By this point the service led to the proxy: it did so from the start, or it was
    /// switched.
    pub open spec fn leads_to_proxy(self, i: int, plan: PlanView) -> bool {
        ||| exists|j: int| 0 <= j < i && #[trigger] self.finds_proxy(j, plan)
        ||| exists|j: int| 0 <= j < i && #[trigger] self.switches(j, plan)
    }

    /// By this point the service led to the proxy, and all its ports had answered.
    pub open spec fn active(self, i: int, plan: PlanView) -> bool {
        self.leads_to_proxy(i, plan) && self.ports_work(
            i,
            plan,
            plan.job.spec.ports.len() as int,
        )
    }

    /// By this point some plan was carried out.
    pub open spec fn done(self, i: int) -> bool {
        exists|plan: PlanView| #[trigger] self.active(i, plan)
    }

    /// By this point a plan for this job was carried out by a switch.
    pub open spec fn switched(self, i: int, job: JobView, plan: PlanView) -> bool {
        &&& plan.job == job
        &&& self.active(i, plan)
        &&& exists|j: int| 0 <= j < i && #[trigger] self.switches(j, plan)
    }

    spec fn careful(self, i: int) -> bool {
        match self.step(i) {
            StepView::Original { plan } => self.action(i) == (ActionView::GetService {
                namespace: self.at(i).target.namespace,
                name: plan.job.spec.service_to_replace,
            }),
            StepView::Backup { plan, .. } => self.backs_up(i, plan),
            StepView::TestService { plan } => {
                &&& self.backed_up(i, plan)
                &&& self.applies_test_service(i, plan)
            },
            StepView::Probe { plan, index, purpose } => {
                &&& index < plan.job.spec.ports.len()
                &&& self.tests(i, plan, index as int)
                &&& self.ports_work(i, plan, index as int)
                &&& purpose matches PurposeView::Switch { ports } ==> {
                    &&& self.backed_up(i, plan)
                    &&& self.test_service_stands(i, plan, ports)
                }
                &&& purpose is Confirm ==> self.leads_to_proxy(i, plan)
            },
            StepView::Switch { plan } => {
                &&& self.backed_up(i, plan)
                &&& self.ports_work(i, plan, plan.job.spec.ports.len() as int)
                &&& exists|ports|
                    #![trigger self.test_service_stands(i, plan, ports)]
                    self.test_service_stands(i, plan, ports) && self.action(i) == proxy_service(
                        plan.job.spec.service_to_replace,
                        self.at(i).target.namespace,
                        plan.owner,
                        ports,
                    ).apply()
            },
            StepView::Scale { replicas, then: AfterScaleView::Finish { job } } => {
                &&& replicas == 0
                &&& exists|plan: PlanView| #[trigger]
                    self.switched(i, job, plan) && self.action(i) == (ActionView::GetDeployment {
                        namespace: self.at(i).target.namespace,
                        name: plan.deployment,
                    })
            },
            StepView::ScaleApplied { then: AfterScaleView::Finish { job } } => {
                exists|plan: PlanView| #[trigger] self.switched(i, job, plan)
            },
            StepView::Scale { replicas, .. } => replicas == 1,
            StepView::Clear => self.done(i),
            StepView::ClearApplied => self.done(i),
            StepView::Settle { ready, outcome } => ready ==> {
                &&& self.done(i)
                &&& outcome == Ok::<Requeue, Seq<char>>(Requeue::After(30))
            },
            _ => true,
        }
    }
}

proof fn lemma_stays(run: Run, i: int, plan: PlanView)
    requires
        0 < i,
    ensures
        run.backed_up(i - 1, plan) ==> run.backed_up(i, plan),
        run.leads_to_proxy(i - 1, plan) ==> run.leads_to_proxy(i, plan),
        forall|count: int| #[trigger]
            run.ports_work(i - 1, plan, count) ==> run.ports_work(i, plan, count),
        run.active(i - 1, plan) ==> run.active(i, plan),
        forall|ports| #[trigger]
            run.test_service_stands(i - 1, plan, ports) ==> run.test_service_stands(
                i,
                plan,
                ports,
            ),
        forall|job: JobView| #[trigger]
            run.switched(i - 1, job, plan) ==> run.switched(i, job, plan),
{
    assert forall|count: int| #[trigger] run.ports_work(i - 1, plan, count) implies run.ports_work(
        i,
        plan,
        count,
    ) by {
        assert forall|port: int| 0 <= port < count implies #[trigger] run.works(i, plan, port) by {
            assert(run.works(i - 1, plan, port));
        }
    }
}

proof fn lemma_careful(meta: ObjectMetaView, run: Run, i: int)
    requires
        run.valid(meta),
        run.running(i),
    ensures
        run.careful(i),
    decreases i,
{
    if i > 0 {
        assert(run.moves(i - 1));
        lemma_careful(meta, run, i - 1);
        assert forall|plan: PlanView| #[trigger] run.active(i - 1, plan) implies run.active(
            i,
            plan,
        ) by {
            lemma_stays(run, i, plan);
        }
        let event = run.events[i - 1];
        match run.step(i - 1) {
            StepView::Backup { plan, .. } => {
                lemma_stays(run, i, plan);
                assert(run.careful(i));
            },
            StepView::Original { plan } => {
                if event is ServiceFound && event->ServiceFound_0 is Some {
                    if event->ServiceFound_0->0.metadata.owned_by(plan.job.uid) {
                        assert(run.finds_proxy(i - 1, plan));
                        assert(run.leads_to_proxy(i, plan));
                        assert(run.ports_work(i, plan, 0));
                        assert(run.careful(i)) by {
                            if plan.job.spec.ports.len() == 0 {
                                assert(run.active(i, plan));
                            }
                        }
                    } else {
                        assert(run.finds_original(i - 1, plan));
                    }
                }
                assert(run.careful(i));
            },
            StepView::TestService { plan } => {
                lemma_stays(run, i, plan);
                assert(run.ports_work(i, plan, 0));
                if event is ServiceApplied {
                    let ports = offered_ports(event->ServiceApplied_0);
                    assert(run.test_service_stands(i, plan, ports));
                }
                assert(run.careful(i));
            },
            StepView::Probe { plan, index, purpose } => {
                lemma_stays(run, i, plan);
                if run.answers(i - 1) {
                    assert(run.works(i, plan, index as int));
                    assert(run.ports_work(i, plan, index as int + 1));
                    if index + 1 == plan.job.spec.ports.len() && purpose is Confirm {
                        assert(run.active(i, plan));
                    }
                }
                assert(run.careful(i));
            },
            StepView::Switch { plan } => {
                lemma_stays(run, i, plan);
                if event is ServiceApplied {
                    assert(run.switches(i - 1, plan));
                    assert(run.switched(i, plan.job, plan));
                }
                assert(run.careful(i));
            },
            StepView::Scale { then: AfterScaleView::Finish { job }, .. } => {
                let plan = choose|plan: PlanView| #[trigger] run.switched(i - 1, job, plan);
                lemma_stays(run, i, plan);
                assert(run.switched(i, job, plan));
                assert(run.active(i, plan));
                assert(run.careful(i));
            },
            StepView::ScaleApplied { then: AfterScaleView::Finish { job } } => {
                let plan = choose|plan: PlanView| #[trigger] run.switched(i - 1, job, plan);
                lemma_stays(run, i, plan);
                assert(run.switched(i, job, plan));
                assert(run.active(i, plan));
                assert(run.careful(i));
            },
            _ => {
                assert(run.careful(i));
            },
        }
    }
}

/// A service is made to lead to the proxy only when its backup stands, which was copied
/// from the service as it was found, when the service through which the proxy is tested
/// stands, and when every port of the proxy has answered with success. It gets the ports
/// that the test service has.
pub proof fn switch_is_backed_up_and_tested(meta: ObjectMetaView, run: Run, i: int, plan: PlanView)
    requires
        run.valid(meta),
        run.running(i),
        run.step(i) == (StepView::Switch { plan }),
    ensures
        run.backed_up(i, plan),
        forall|port: int|
            0 <= port < plan.job.spec.ports.len() ==> #[trigger] run.works(i, plan, port),
        exists|j: int|
            0 <= j < i && #[trigger] run.applies_test_service(j, plan) && run.events[j]
                is ServiceApplied && run.action(i) == proxy_service(
                plan.job.spec.service_to_replace,
                meta.namespace->0,
                plan.owner,
                offered_ports(run.events[j]->ServiceApplied_0),
            ).apply(),
{
    lemma_careful(meta, run, i);
    target_stays(meta, run, i);
}

/// A deployment is scaled to nothing only when the service led to the proxy before, and it
/// is the deployment behind that service. In every other case it is scaled to one.
pub proof fn deployment_stops_only_after_the_switch(
    meta: ObjectMetaView,
    run: Run,
    i: int,
    replicas: i32,
    then: AfterScaleView,
)
    requires
        run.valid(meta),
        run.running(i),
        run.step(i) == (StepView::Scale { replicas, then }),
    ensures
        replicas == 0 || replicas == 1,
        replicas == 0 ==> exists|plan: PlanView|
            #![trigger run.active(i, plan)]
            run.active(i, plan) && run.action(i) == (ActionView::GetDeployment {
                namespace: meta.namespace->0,
                name: plan.deployment,
            }) && exists|j: int| 0 <= j < i && #[trigger] run.switches(j, plan),
{
    lemma_careful(meta, run, i);
    target_stays(meta, run, i);
    if replicas == 0 {
        let job = then->Finish_job;
        let plan = choose|plan: PlanView| #[trigger]
            run.switched(i, job, plan) && run.action(i) == (ActionView::GetDeployment {
                namespace: run.at(i).target.namespace,
                name: plan.deployment,
            });
        assert(run.active(i, plan));
    }
}

/// A deployment is scaled to nothing only when it is on record, so that a removal can scale
/// it up again.
pub proof fn stopped_deployment_is_on_record(
    meta: ObjectMetaView,
    run: Run,
    i: int,
    then: AfterScaleView,
)
    requires
        run.valid(meta),
        run.running(i),
        run.step(i) == (StepView::Scale { replicas: 0, then }),
    ensures
        exists|plan: PlanView|
            #![trigger run.planned(i, plan)]
            run.planned(i, plan) && run.action(i) == (ActionView::GetDeployment {
                namespace: meta.namespace->0,
                name: plan.deployment,
            }),
{
    deployment_stops_only_after_the_switch(meta, run, i, 0, then);
    let plan = choose|plan: PlanView|
        #![trigger run.active(i, plan)]
        run.active(i, plan) && run.action(i) == (ActionView::GetDeployment {
            namespace: meta.namespace->0,
            name: plan.deployment,
        }) && exists|j: int| 0 <= j < i && #[trigger] run.switches(j, plan);
    let j = choose|j: int| 0 <= j < i && #[trigger] run.switches(j, plan);
    assert(run.moves(j));
    plans_are_grounded(meta, run, j);
    plans_stay_grounded(run, j, i, plan);
}

/// A reconcile ends ready only when the service leads to the proxy and every port of the
/// proxy has answered with success in this reconcile.
pub proof fn ready_means_working(
    meta: ObjectMetaView,
    run: Run,
    i: int,
    outcome: Result<Requeue, Seq<char>>,
)
    requires
        run.valid(meta),
        run.running(i),
        run.step(i) == (StepView::Settle { ready: true, outcome }),
    ensures
        exists|plan: PlanView| #[trigger] run.active(i, plan),
        outcome == Ok::<Requeue, Seq<char>>(Requeue::After(30)),
{
    lemma_careful(meta, run, i);
}

/// Services are written in five places, each under its own name. Of these only the switch
/// and the two that restore it touch the service to replace itself.
pub proof fn services_are_written_by_name(
    meta: ObjectMetaView,
    run: Run,
    i: int,
    namespace: Seq<char>,
    name: Seq<char>,
    service: ServiceView,
)
    requires
        run.valid(meta),
        run.running(i),
        run.action(i) == (ActionView::ApplyService { namespace, name, service }),
    ensures
        service.metadata.name == Some(name),
        service.metadata.namespace == Some(namespace),
        match run.step(i) {
            StepView::RemovalRestore { removal } => name == removal.service,
            StepView::Backup { plan, .. } => {
                &&& name == plan.job.spec.backup_service_name()
                &&& name != plan.job.spec.service_to_replace
            },
            StepView::TestService { plan } => {
                &&& name == plan.job.spec.test_service_name()
                &&& name != plan.job.spec.service_to_replace
            },
            StepView::Switch { plan } => name == plan.job.spec.service_to_replace,
            StepView::RestoreApply { plan, .. } => name == plan.job.spec.service_to_replace,
            _ => false,
        },
{
    if i > 0 {
        assert(run.moves(i - 1));
        if run.step(i).plan() is Some {
            service_names_differ(run.step(i).plan()->0.job.spec);
        }
    }
}

/// Where the service leads to the proxy already and every test succeeds, the machine
/// tests, takes off the warning and says that the service is active: it changes nothing
/// but the status.
pub proof fn working_proxy_is_left_alone(
    meta: ObjectMetaView,
    run: Run,
    j: int,
    i: int,
    plan: PlanView,
)
    requires
        run.valid(meta),
        run.running(i),
        0 <= j < i,
        run.step(j) == (StepView::Original { plan }),
        run.finds_proxy(j, plan),
        forall|k: int| j < k < i && #[trigger] run.step(k) is Probe ==> run.answers(k),
    ensures
        run.action(i) is TestUrl || run.action(i) is GetResource || run.action(i) is PatchStatus,
        match run.step(i) {
            StepView::Probe { purpose, .. } => purpose is Confirm,
            step => step is Clear || step is ClearApplied || step is Settle
                || step is SettleApplied,
        },
    decreases i,
{
    assert(run.moves(i - 1));
    if i > j + 1 {
        working_proxy_is_left_alone(meta, run, j, i - 1, plan);
    }
}

/// Where the test service reads back with the ports that it was applied with, the service
/// that comes to lead to the proxy offers every port that the service offered when it was
/// found, by its number, and no other.
pub proof fn switched_service_offers_every_port(
    meta: ObjectMetaView,
    run: Run,
    i: int,
    plan: PlanView,
)
    requires
        run.valid(meta),
        run.running(i),
        run.step(i) == (StepView::Switch { plan }),
        forall|j: int|
            0 <= j < i && (#[trigger] run.step(j)) is TestService && run.events[j]
                is ServiceApplied ==> run.events[j]->ServiceApplied_0.spec is Some
                && run.events[j]->ServiceApplied_0.spec->0.ports
                == run.action(j)->service.spec->0.ports,
    ensures
        exists|j: int|
            {
                &&& 0 <= j < i
                &&& #[trigger] run.finds_original(j, plan)
                &&& run.action(i)->service.spec is Some
                &&& run.action(i)->service.spec->0.ports is Some
                &&& run.events[j]->ServiceFound_0->0.spec is Some
                &&& run.events[j]->ServiceFound_0->0.spec->0.ports is Some
                &&& {
                    let listed = run.events[j]->ServiceFound_0->0.spec->0.ports->0;
                    let offered = run.action(i)->service.spec->0.ports->0;
                    &&& forall|k: int|
                        0 <= k < listed.len() ==> exists|l: int|
                            0 <= l < offered.len() && (#[trigger] offered[l]).port == (
                            #[trigger] listed[k]).port
                    &&& forall|l: int|
                        0 <= l < offered.len() ==> exists|k: int|
                            0 <= k < listed.len() && (#[trigger] listed[k]).port == (
                            #[trigger] offered[l]).port
                }
            },
{
    switch_is_backed_up_and_tested(meta, run, i, plan);
    let t = choose|t: int|
        0 <= t < i && #[trigger] run.applies_test_service(t, plan) && run.events[t]
            is ServiceApplied && run.action(i) == proxy_service(
            plan.job.spec.service_to_replace,
            meta.namespace->0,
            plan.owner,
            offered_ports(run.events[t]->ServiceApplied_0),
        ).apply();
    assert(run.moves(t));
    assert(run.moves(t - 1));
    assert(run.step(t - 1) is Backup);
    lemma_careful(meta, run, t - 1);
    assert(run.moves(t - 2));
    assert(run.finds_original(t - 2, plan));
    let ports = run.step(t - 1)->Backup_ports;
    let service = run.events[t - 2]->ServiceFound_0->0;
    assert(run.step(t - 2) is Original);
    found_service_is_confirmed_or_backed_up(
        run.at(t - 2),
        plan,
        Some(service),
        run.states[t - 1],
    );
    test_service_offers_every_port(
        run.at(t - 1),
        plan,
        ports,
        run.events[t - 1]->ServiceApplied_0,
        run.states[t],
    );
    let listed = service.spec->0.ports->0;
    let offered = run.action(i)->service.spec->0.ports->0;
    assert(offered == run.action(t)->service.spec->0.ports->0);
    assert forall|k: int| 0 <= k < listed.len() implies exists|l: int|
        0 <= l < offered.len() && (#[trigger] offered[l]).port == (#[trigger] listed[k]).port by {
        assert(ports[k] == listed[k].port);
        assert(ports.contains(ports[k]));
    }
    assert forall|l: int| 0 <= l < offered.len() implies exists|k: int|
        0 <= k < listed.len() && (#[trigger] listed[k]).port == (#[trigger] offered[l]).port by {
        assert(ports.contains(offered[l].port));
        let k = choose|k: int| 0 <= k < ports.len() && ports[k] == offered[l].port;
        assert(listed[k].port == offered[l].port);
    }
}

} // verus!
