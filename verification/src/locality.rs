//! A reconcile keeps to one namespace.

use crate::action::{ActionView, EventView};
use crate::meta::ObjectMetaView;
use crate::runs::{target_stays, Run};
use crate::step::StepView;
use vstd::prelude::*;

verus! {

impl ActionView {
    /// The action reads and writes nothing of the cluster outside this namespace.
    pub open spec fn stays_in(self, namespace: Seq<char>) -> bool {
        match self {
            ActionView::GetResource { namespace: own, .. } => own == namespace,
            ActionView::PatchStatus { namespace: own, .. } => own == namespace,
            ActionView::EnsureFinalizer { resource } => {
                resource.metadata.namespace == Some(namespace)
            },
            ActionView::RemoveFinalizer { namespace: own, .. } => own == namespace,
            ActionView::GetService { namespace: own, .. } => own == namespace,
            ActionView::FetchService { namespace: own, .. } => own == namespace,
            ActionView::ApplyService { namespace: own, service, .. } => {
                own == namespace && service.metadata.namespace == Some(namespace)
            },
            ActionView::DeleteService { namespace: own, .. } => own == namespace,
            ActionView::GetDeployment { namespace: own, .. } => own == namespace,
            ActionView::ApplyDeployment { namespace: own, deployment, .. } => {
                own == namespace && deployment.metadata.namespace == Some(namespace)
            },
            ActionView::CreateProxyDeployment { namespace: own, proxy, .. } => {
                own == namespace && proxy.metadata.namespace == Some(namespace)
            },
            ActionView::FetchEndpoints { namespace: own, .. } => own == namespace,
            ActionView::FetchPod { namespace: own, .. } => own == namespace,
            ActionView::FetchReplicaSet { namespace: own, .. } => own == namespace,
            ActionView::FetchDeployment { namespace: own, .. } => own == namespace,
            ActionView::GetSecret { namespace: own, .. } => own == namespace,
            ActionView::CreateAuthToken { .. } => true,
            ActionView::ApplySecret { namespace: own, secret, .. } => {
                own == namespace && secret.metadata.namespace == Some(namespace)
            },
            ActionView::TestUrl { .. } => true,
        }
    }
}

impl EventView {
    /// The objects that come back are those of this namespace.
    pub open spec fn comes_from(self, namespace: Seq<char>) -> bool {
        match self {
            EventView::ResourceFound(Some(resource)) => {
                resource.metadata.namespace == Some(namespace)
            },
            EventView::ResourceEnsured(resource) => {
                resource.metadata.namespace == Some(namespace)
            },
            EventView::ServiceFound(Some(service)) => {
                service.metadata.namespace == Some(namespace)
            },
            EventView::ServiceFetched(service) => service.metadata.namespace == Some(namespace),
            EventView::DeploymentFound(Some(deployment)) => {
                deployment.metadata.namespace == Some(namespace)
            },
            _ => true,
        }
    }
}

impl StepView {
    spec fn stays_in(self, namespace: Seq<char>) -> bool {
        match self {
            StepView::FindEndpoints { candidate } => candidate.namespace == namespace,
            StepView::FindPod { candidate, .. } => candidate.namespace == namespace,
            StepView::FindReplicaSet { candidate } => candidate.namespace == namespace,
            StepView::FindDeployment { candidate } => candidate.namespace == namespace,
            StepView::FindRecord { job, .. } => job.namespace == namespace,
            StepView::Warn { namespace: own, .. } => own == namespace,
            step => step.plan() is Some ==> step.plan()->0.job.namespace == namespace,
        }
    }
}

proof fn lemma_stays_in(meta: ObjectMetaView, run: Run, i: int)
    requires
        run.valid(meta),
        run.running(i),
        forall|j: int| 0 <= j < i ==> (#[trigger] run.events[j]).comes_from(meta.namespace->0),
    ensures
        run.at(i).target.namespace == meta.namespace->0,
        run.step(i).stays_in(meta.namespace->0),
        run.action(i).stays_in(meta.namespace->0),
    decreases i,
{
    let namespace = meta.namespace->0;
    if i > 0 {
        assert(run.moves(i - 1));
        lemma_stays_in(meta, run, i - 1);
        assert(run.events[i - 1].comes_from(namespace));
        match run.step(i - 1) {
            StepView::Finalizer { .. } => {
                assert(run.step(i).stays_in(namespace) && run.action(i).stays_in(namespace));
            },
            StepView::ProxyLookup { .. } => {
                assert(run.step(i).stays_in(namespace) && run.action(i).stays_in(namespace));
            },
            StepView::Original { .. } => {
                assert(run.step(i).stays_in(namespace) && run.action(i).stays_in(namespace));
            },
            StepView::Backup { .. } => {
                assert(run.step(i).stays_in(namespace) && run.action(i).stays_in(namespace));
            },
            StepView::Probe { .. } => {
                assert(run.step(i).stays_in(namespace) && run.action(i).stays_in(namespace));
            },
            StepView::Scale { .. } => {
                assert(run.step(i).stays_in(namespace) && run.action(i).stays_in(namespace));
            },
            _ => {
                assert(run.step(i).stays_in(namespace) && run.action(i).stays_in(namespace));
            },
        }
    }
}

/// Where the cluster answers with objects of the namespace that it is asked about, a
/// reconcile reads and writes nothing outside the namespace of its resource.
pub proof fn reconcile_keeps_to_its_namespace(meta: ObjectMetaView, run: Run, i: int)
    requires
        run.valid(meta),
        run.running(i),
        forall|j: int| 0 <= j < i ==> (#[trigger] run.events[j]).comes_from(meta.namespace->0),
    ensures
        meta.namespace is Some,
        run.action(i).stays_in(meta.namespace->0),
{
    lemma_stays_in(meta, run, i);
    target_stays(meta, run, i);
}

} // verus!
