//! What the proxy is given before a service can lead to it.

use crate::action::{ActionView, EventView};
use crate::deployment::{auth_key_secret, proxy_deployment, proxy_deployment_name};
use crate::meta::ObjectMetaView;
use crate::runs::Run;
use crate::step::{PlanView, StepView};
use vstd::prelude::*;

verus! {

impl Run {
    /// The secret of the proxy is being looked for.
    pub open spec fn seeks_secret(self, j: int, plan: PlanView) -> bool {
        self.action(j) == ActionView::GetSecret {
            namespace: plan.job.namespace,
            name: plan.job.spec.proxy_state_secret_name,
        }
    }

    /// A secret with this auth key is being written for the proxy.
    pub open spec fn writes_secret(self, j: int, plan: PlanView, auth_key: Seq<char>) -> bool {
        self.action(j) == ActionView::ApplySecret {
            namespace: plan.job.namespace,
            name: plan.job.spec.proxy_state_secret_name,
            secret: auth_key_secret(
                plan.job.spec.proxy_state_secret_name,
                plan.job.namespace,
                plan.owner,
                auth_key,
            ),
        }
    }

    /// The secret was missing, and an auth key with the tags of the proxy is asked for.
    pub open spec fn asks_for_key(self, j: int, plan: PlanView) -> bool {
        &&& 0 < j
        &&& self.seeks_secret(j - 1, plan)
        &&& self.events[j - 1] == EventView::SecretFound(false)
        &&& self.action(j) == (ActionView::CreateAuthToken {
            tags: plan.job.spec.tailscale_tags,
        })
    }

    /// An auth key was asked for and came, and goes into the secret.
    pub open spec fn hands_over_key(self, j: int, plan: PlanView) -> bool {
        &&& 0 < j
        &&& self.asks_for_key(j - 1, plan)
        &&& self.events[j - 1] is AuthKeyCreated
        &&& self.writes_secret(j, plan, self.events[j - 1]->AuthKeyCreated_0)
    }

    /// By this point the proxy had its secret: it was there, or it was written.
    pub open spec fn has_secret(self, i: int, plan: PlanView) -> bool {
        ||| exists|j: int|
            0 <= j < i && #[trigger] self.seeks_secret(j, plan) && self.events[j]
                == EventView::SecretFound(true)
        ||| exists|j: int|
            0 <= j < i && #[trigger] self.hands_over_key(j, plan) && self.events[j]
                == EventView::Done
    }

    /// The deployment of the proxy is being looked for.
    pub open spec fn seeks_proxy(self, j: int, plan: PlanView) -> bool {
        self.action(j) == ActionView::GetDeployment {
            namespace: plan.job.namespace,
            name: proxy_deployment_name(),
        }
    }

    /// The deployment of the proxy that was looked for is there and owned, or it is being
    /// given an owner, or it is being created.
    pub open spec fn deploys(self, i: int, j: int, plan: PlanView) -> bool {
        &&& self.seeks_proxy(j, plan)
        &&& self.events[j] is DeploymentFound
        &&& match self.events[j]->DeploymentFound_0 {
            Some(existing) => if existing.metadata.owned_by(plan.owner.uid) {
                j < i
            } else {
                &&& j + 1 < i
                &&& self.action(j + 1) == existing.with_owner(plan.owner).apply()
                &&& self.events[j + 1] == EventView::Done
            },
            None => {
                &&& j + 1 < i
                &&& self.action(j + 1) == (ActionView::CreateProxyDeployment {
                    namespace: plan.job.namespace,
                    name: proxy_deployment_name(),
                    proxy: proxy_deployment(plan.job.namespace, plan.job.spec),
                })
                &&& self.events[j + 1] == EventView::Done
            },
        }
    }

    /// By this point the proxy was deployed.
    pub open spec fn has_proxy(self, i: int, plan: PlanView) -> bool {
        exists|j: int| 0 <= j < i && #[trigger] self.deploys(i, j, plan)
    }

    spec fn provisioned(self, i: int) -> bool {
        match self.step(i) {
            StepView::Secret { plan } => self.seeks_secret(i, plan),
            StepView::AuthKey { plan } => self.asks_for_key(i, plan),
            StepView::SecretApplied { plan } => self.hands_over_key(i, plan),
            StepView::ProxyLookup { plan } => self.has_secret(i, plan) && self.seeks_proxy(
                i,
                plan,
            ),
            StepView::ProxyApplied { plan } => {
                &&& self.has_secret(i, plan)
                &&& 0 < i
                &&& self.seeks_proxy(i - 1, plan)
                &&& self.events[i - 1] is DeploymentFound
                &&& match self.events[i - 1]->DeploymentFound_0 {
                    Some(existing) => {
                        &&& !existing.metadata.owned_by(plan.owner.uid)
                        &&& self.action(i) == existing.with_owner(plan.owner).apply()
                    },
                    None => self.action(i) == (ActionView::CreateProxyDeployment {
                        namespace: plan.job.namespace,
                        name: proxy_deployment_name(),
                        proxy: proxy_deployment(plan.job.namespace, plan.job.spec),
                    }),
                }
            },
            StepView::Original { plan } => self.has_secret(i, plan) && self.has_proxy(i, plan),
            _ => true,
        }
    }
}

proof fn lemma_provisioned(meta: ObjectMetaView, run: Run, i: int)
    requires
        run.valid(meta),
        run.running(i),
    ensures
        run.provisioned(i),
    decreases i,
{
    if i > 0 {
        assert(run.moves(i - 1));
        lemma_provisioned(meta, run, i - 1);
        assert forall|plan: PlanView| #[trigger] run.has_secret(i - 1, plan) implies run.has_secret(
            i,
            plan,
        ) by {}
        match run.step(i - 1) {
            StepView::Secret { .. } => {
                assert(run.provisioned(i));
            },
            StepView::AuthKey { .. } => {
                assert(run.provisioned(i));
            },
            StepView::SecretApplied { .. } => {
                assert(run.provisioned(i));
            },
            StepView::ProxyLookup { plan } => {
                if run.step(i) is Original {
                    assert(run.deploys(i, i - 1, plan));
                }
                assert(run.provisioned(i));
            },
            StepView::ProxyApplied { plan } => {
                if run.step(i) is Original {
                    assert(run.deploys(i, i - 2, plan));
                }
                assert(run.provisioned(i));
            },
            _ => {
                assert(run.provisioned(i));
            },
        }
    }
}

/// An auth key is asked for only when the secret of the proxy is missing: a proxy that has
/// its secret keeps it.
pub proof fn key_is_made_only_for_a_missing_secret(
    meta: ObjectMetaView,
    run: Run,
    i: int,
    plan: PlanView,
)
    requires
        run.valid(meta),
        run.running(i),
        run.step(i) == (StepView::AuthKey { plan }),
    ensures
        run.asks_for_key(i, plan),
{
    lemma_provisioned(meta, run, i);
}

/// The service to replace is looked at only when the proxy has its secret and is deployed.
pub proof fn proxy_comes_first(meta: ObjectMetaView, run: Run, i: int, plan: PlanView)
    requires
        run.valid(meta),
        run.running(i),
        run.step(i) == (StepView::Original { plan }),
    ensures
        run.has_secret(i, plan),
        run.has_proxy(i, plan),
{
    lemma_provisioned(meta, run, i);
}

} // verus!
