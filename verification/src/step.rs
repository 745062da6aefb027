//! The steps of a reconcile: what it waits for, and what it remembers meanwhile.

use crate::action::{Action, ActionView};
use crate::error::{Error, Requeue};
use crate::meta::{OwnerReference, OwnerReferenceView};
use crate::replaced_service::{
    ReplacedService, ReplacedServiceSpec, ReplacedServiceSpecView, ReplacedServiceView,
};
use crate::service::{ServicePort, ServicePortView};
use vstd::prelude::*;

verus! {

/// How a reconcile ends, with an error as its text.
pub open spec fn outcome_view(outcome: &Result<Requeue, Error>) -> Result<Requeue, Seq<char>> {
    match outcome {
        Ok(requeue) => Ok(*requeue),
        Err(error) => Err(error@),
    }
}

/// The replaced service that a reconcile is about, by the name it was announced under.
#[derive(Debug)]
pub struct Target {
    pub namespace: String,
    pub name: String,
}

/// The mathematical view of [`Target`].
#[verifier::ext_equal]
pub struct TargetView {
    pub namespace: Seq<char>,
    pub name: Seq<char>,
}

impl View for Target {
    type V = TargetView;

    open spec fn view(&self) -> TargetView {
        TargetView {
            namespace: self.namespace@,
            name: self.name@,
        }
    }
}

impl DeepView for Target {
    type V = TargetView;

    open spec fn deep_view(&self) -> TargetView {
        self.view()
    }
}

/// What the removal of a replaced service has to undo.
#[derive(Debug)]
pub struct Removal {
    /// The service that was replaced
    pub service: String,
    /// The deployment that was scaled down
    pub deployment: Option<String>,
}

/// The mathematical view of [`Removal`].
#[verifier::ext_equal]
pub struct RemovalView {
    pub service: Seq<char>,
    pub deployment: Option<Seq<char>>,
}

impl View for Removal {
    type V = RemovalView;

    open spec fn view(&self) -> RemovalView {
        RemovalView {
            service: self.service@,
            deployment: self.deployment.deep_view(),
        }
    }
}

impl DeepView for Removal {
    type V = RemovalView;

    open spec fn deep_view(&self) -> RemovalView {
        self.view()
    }
}

/// A replaced service whose deployment is being looked for.
#[derive(Debug)]
pub struct Candidate {
    /// The service to replace, as the resource named it when the reconcile began
    pub service: String,
    /// The resource, as it reads with its finalizer
    pub resource: ReplacedService,
    pub namespace: String,
    pub uid: String,
}

/// The mathematical view of [`Candidate`].
#[verifier::ext_equal]
pub struct CandidateView {
    pub service: Seq<char>,
    pub resource: ReplacedServiceView,
    pub namespace: Seq<char>,
    pub uid: Seq<char>,
}

impl View for Candidate {
    type V = CandidateView;

    open spec fn view(&self) -> CandidateView {
        CandidateView {
            service: self.service@,
            resource: self.resource@,
            namespace: self.namespace@,
            uid: self.uid@,
        }
    }
}

impl DeepView for Candidate {
    type V = CandidateView;

    open spec fn deep_view(&self) -> CandidateView {
        self.view()
    }
}

/// What a reconcile needs of the replaced service once it is known.
#[derive(Debug)]
pub struct Job {
    /// The namespace that the resource itself names
    pub namespace: String,
    /// The name that the resource itself goes by
    pub name: String,
    pub uid: String,
    /// What the resource asks for, of the service that it named when the reconcile began
    pub spec: ReplacedServiceSpec,
}

/// The mathematical view of [`Job`].
#[verifier::ext_equal]
pub struct JobView {
    pub namespace: Seq<char>,
    pub name: Seq<char>,
    pub uid: Seq<char>,
    pub spec: ReplacedServiceSpecView,
}

impl View for Job {
    type V = JobView;

    open spec fn view(&self) -> JobView {
        JobView {
            namespace: self.namespace@,
            name: self.name@,
            uid: self.uid@,
            spec: self.spec@,
        }
    }
}

impl DeepView for Job {
    type V = JobView;

    open spec fn deep_view(&self) -> JobView {
        self.view()
    }
}

/// A job with the deployment to scale and the owner of what is created.
#[derive(Debug)]
pub struct Plan {
    pub job: Job,
    pub owner: OwnerReference,
    pub deployment: String,
}

/// The mathematical view of [`Plan`].
#[verifier::ext_equal]
pub struct PlanView {
    pub job: JobView,
    pub owner: OwnerReferenceView,
    pub deployment: Seq<char>,
}

impl View for Plan {
    type V = PlanView;

    open spec fn view(&self) -> PlanView {
        PlanView {
            job: self.job@,
            owner: self.owner@,
            deployment: self.deployment@,
        }
    }
}

impl DeepView for Plan {
    type V = PlanView;

    open spec fn deep_view(&self) -> PlanView {
        self.view()
    }
}

/// Why the proxy is being tested.
#[derive(Debug)]
pub enum Purpose {
    /// The service leads to the proxy: does it still work?
    Confirm,
    /// The service is to lead to the proxy, with these ports: does it work?
    Switch { ports: Option<Vec<ServicePort>> },
}

/// The mathematical view of [`Purpose`].
#[verifier::ext_equal]
pub enum PurposeView {
    Confirm,
    Switch { ports: Option<Seq<ServicePortView>> },
}

impl View for Purpose {
    type V = PurposeView;

    open spec fn view(&self) -> PurposeView {
        match self {
            Purpose::Confirm => PurposeView::Confirm,
            Purpose::Switch { ports } => PurposeView::Switch { ports: ports.deep_view() },
        }
    }
}

impl DeepView for Purpose {
    type V = PurposeView;

    open spec fn deep_view(&self) -> PurposeView {
        self.view()
    }
}

/// What follows when a deployment has been scaled.
#[derive(Debug)]
pub enum AfterScale {
    /// The replaced service can go.
    Release,
    /// The original service takes its place again.
    Restore { plan: Plan, failure: String },
    /// The service is replaced.
    Finish { job: Job },
}

/// The mathematical view of [`AfterScale`].
#[verifier::ext_equal]
pub enum AfterScaleView {
    Release,
    Restore { plan: PlanView, failure: Seq<char> },
    Finish { job: JobView },
}

impl View for AfterScale {
    type V = AfterScaleView;

    open spec fn view(&self) -> AfterScaleView {
        match self {
            AfterScale::Release => AfterScaleView::Release,
            AfterScale::Restore { plan, failure } => AfterScaleView::Restore {
                plan: plan@,
                failure: failure@,
            },
            AfterScale::Finish { job } => AfterScaleView::Finish { job: job@ },
        }
    }
}

impl DeepView for AfterScale {
    type V = AfterScaleView;

    open spec fn deep_view(&self) -> AfterScaleView {
        self.view()
    }
}

/// What a reconcile is waiting for.
#[derive(Debug)]
pub enum Step {
    /// Waiting for the replaced service.
    Fetch,
    /// Removal: waiting for the backup.
    RemovalBackup { removal: Removal },
    /// Removal: waiting until the original service is restored.
    RemovalRestore { removal: Removal },
    /// Removal: waiting until the backup has no finalizer.
    RemovalUnlock { removal: Removal },
    /// Removal: waiting until the backup is deleted.
    RemovalDelete { removal: Removal },
    /// Removal: waiting until the replaced service has no finalizer.
    RemovalRelease,
    /// Waiting until the replaced service, which named this service, has its finalizer.
    Finalizer { service: String },
    /// Waiting for the endpoints of the service.
    FindEndpoints { candidate: Candidate },
    /// Waiting for the pod behind the service.
    FindPod { candidate: Candidate, pod: String },
    /// Waiting for the replica set of the pod.
    FindReplicaSet { candidate: Candidate },
    /// Waiting for the deployment of the replica set.
    FindDeployment { candidate: Candidate },
    /// Waiting until the deployment is on record.
    FindRecord { job: Job, owner: Option<OwnerReference>, deployment: String },
    /// Waiting to hear whether the proxy has its secret.
    Secret { plan: Plan },
    /// Waiting for an auth key.
    AuthKey { plan: Plan },
    /// Waiting until the secret is applied.
    SecretApplied { plan: Plan },
    /// Waiting for the deployment of the proxy.
    ProxyLookup { plan: Plan },
    /// Waiting until the deployment of the proxy is applied.
    ProxyApplied { plan: Plan },
    /// Waiting for the service to replace.
    Original { plan: Plan },
    /// Waiting until the backup is applied. The service has these ports.
    Backup { plan: Plan, ports: Vec<i32> },
    /// Waiting until the service for the tests is applied.
    TestService { plan: Plan },
    /// Waiting for the answer of one port of the proxy.
    Probe { plan: Plan, index: usize, purpose: Purpose },
    /// Waiting until the service leads to the proxy.
    Switch { plan: Plan },
    /// Waiting for a deployment to scale.
    Scale { replicas: i32, then: AfterScale },
    /// Waiting until a deployment is scaled.
    ScaleApplied { then: AfterScale },
    /// The proxy failed: waiting for the backup.
    RestoreBackup { plan: Plan, failure: String },
    /// The proxy failed: waiting until the original service is restored.
    RestoreApply { plan: Plan, failure: String },
    /// Waiting for the replaced service, to put a warning on it.
    Warn { namespace: String, message: String },
    /// Waiting until the warning is written.
    WarnApplied,
    /// Waiting for the replaced service, to take a warning off it.
    Clear,
    /// Waiting until the warning is taken off.
    ClearApplied,
    /// Waiting for the replaced service, to say whether it is active.
    Settle { ready: bool, outcome: Result<Requeue, Error> },
    /// Waiting until it is written whether the service is active.
    SettleApplied { outcome: Result<Requeue, Error> },
}

/// The mathematical view of [`Step`].
#[verifier::ext_equal]
pub enum StepView {
    Fetch,
    RemovalBackup { removal: RemovalView },
    RemovalRestore { removal: RemovalView },
    RemovalUnlock { removal: RemovalView },
    RemovalDelete { removal: RemovalView },
    RemovalRelease,
    Finalizer { service: Seq<char> },
    FindEndpoints { candidate: CandidateView },
    FindPod { candidate: CandidateView, pod: Seq<char> },
    FindReplicaSet { candidate: CandidateView },
    FindDeployment { candidate: CandidateView },
    FindRecord { job: JobView, owner: Option<OwnerReferenceView>, deployment: Seq<char> },
    Secret { plan: PlanView },
    AuthKey { plan: PlanView },
    SecretApplied { plan: PlanView },
    ProxyLookup { plan: PlanView },
    ProxyApplied { plan: PlanView },
    Original { plan: PlanView },
    Backup { plan: PlanView, ports: Seq<i32> },
    TestService { plan: PlanView },
    Probe { plan: PlanView, index: nat, purpose: PurposeView },
    Switch { plan: PlanView },
    Scale { replicas: i32, then: AfterScaleView },
    ScaleApplied { then: AfterScaleView },
    RestoreBackup { plan: PlanView, failure: Seq<char> },
    RestoreApply { plan: PlanView, failure: Seq<char> },
    Warn { namespace: Seq<char>, message: Seq<char> },
    WarnApplied,
    Clear,
    ClearApplied,
    Settle { ready: bool, outcome: Result<Requeue, Seq<char>> },
    SettleApplied { outcome: Result<Requeue, Seq<char>> },
}

impl View for Step {
    type V = StepView;

    open spec fn view(&self) -> StepView {
        match self {
            Step::Fetch => StepView::Fetch,
            Step::RemovalBackup { removal } => StepView::RemovalBackup { removal: removal@ },
            Step::RemovalRestore { removal } => StepView::RemovalRestore { removal: removal@ },
            Step::RemovalUnlock { removal } => StepView::RemovalUnlock { removal: removal@ },
            Step::RemovalDelete { removal } => StepView::RemovalDelete { removal: removal@ },
            Step::RemovalRelease => StepView::RemovalRelease,
            Step::Finalizer { service } => StepView::Finalizer { service: service@ },
            Step::FindEndpoints { candidate } => StepView::FindEndpoints { candidate: candidate@ },
            Step::FindPod { candidate, pod } => StepView::FindPod {
                candidate: candidate@,
                pod: pod@,
            },
            Step::FindReplicaSet { candidate } => StepView::FindReplicaSet {
                candidate: candidate@,
            },
            Step::FindDeployment { candidate } => StepView::FindDeployment {
                candidate: candidate@,
            },
            Step::FindRecord { job, owner, deployment } => StepView::FindRecord {
                job: job@,
                owner: owner.deep_view(),
                deployment: deployment@,
            },
            Step::Secret { plan } => StepView::Secret { plan: plan@ },
            Step::AuthKey { plan } => StepView::AuthKey { plan: plan@ },
            Step::SecretApplied { plan } => StepView::SecretApplied { plan: plan@ },
            Step::ProxyLookup { plan } => StepView::ProxyLookup { plan: plan@ },
            Step::ProxyApplied { plan } => StepView::ProxyApplied { plan: plan@ },
            Step::Original { plan } => StepView::Original { plan: plan@ },
            Step::Backup { plan, ports } => StepView::Backup { plan: plan@, ports: ports@ },
            Step::TestService { plan } => StepView::TestService { plan: plan@ },
            Step::Probe { plan, index, purpose } => StepView::Probe {
                plan: plan@,
                index: *index as nat,
                purpose: purpose@,
            },
            Step::Switch { plan } => StepView::Switch { plan: plan@ },
            Step::Scale { replicas, then } => StepView::Scale { replicas: *replicas, then: then@ },
            Step::ScaleApplied { then } => StepView::ScaleApplied { then: then@ },
            Step::RestoreBackup { plan, failure } => StepView::RestoreBackup {
                plan: plan@,
                failure: failure@,
            },
            Step::RestoreApply { plan, failure } => StepView::RestoreApply {
                plan: plan@,
                failure: failure@,
            },
            Step::Warn { namespace, message } => StepView::Warn {
                namespace: namespace@,
                message: message@,
            },
            Step::WarnApplied => StepView::WarnApplied,
            Step::Clear => StepView::Clear,
            Step::ClearApplied => StepView::ClearApplied,
            Step::Settle { ready, outcome } => StepView::Settle {
                ready: *ready,
                outcome: outcome_view(outcome),
            },
            Step::SettleApplied { outcome } => StepView::SettleApplied {
                outcome: outcome_view(outcome),
            },
        }
    }
}

impl DeepView for Step {
    type V = StepView;

    open spec fn deep_view(&self) -> StepView {
        self.view()
    }
}

/// A reconcile that waits for an event.
#[derive(Debug)]
pub struct Reconciler {
    pub target: Target,
    pub step: Step,
}

/// The mathematical view of [`Reconciler`].
#[verifier::ext_equal]
pub struct ReconcilerView {
    pub target: TargetView,
    pub step: StepView,
}

impl View for Reconciler {
    type V = ReconcilerView;

    open spec fn view(&self) -> ReconcilerView {
        ReconcilerView {
            target: self.target@,
            step: self.step@,
        }
    }
}

impl DeepView for Reconciler {
    type V = ReconcilerView;

    open spec fn deep_view(&self) -> ReconcilerView {
        self.view()
    }
}

/// Where a reconcile stands.
#[derive(Debug)]
pub enum Progress {
    /// It waits for what comes of an action.
    Pending(Reconciler, Action),
    /// It is over.
    Finished(Result<Requeue, Error>),
}

/// The mathematical view of [`Progress`].
#[verifier::ext_equal]
pub enum ProgressView {
    Pending(ReconcilerView, ActionView),
    Finished(Result<Requeue, Seq<char>>),
}

impl View for Progress {
    type V = ProgressView;

    open spec fn view(&self) -> ProgressView {
        match self {
            Progress::Pending(v0, v1) => ProgressView::Pending(v0@, v1@),
            Progress::Finished(value) => ProgressView::Finished(outcome_view(value)),
        }
    }
}

impl DeepView for Progress {
    type V = ProgressView;

    open spec fn deep_view(&self) -> ProgressView {
        self.view()
    }
}

/// An end reads as it is: the same time to come back, or the text of the same error.
pub proof fn outcomes_read_as_they_are(outcome: Result<Requeue, Error>)
    ensures
        outcome is Ok <==> outcome_view(&outcome) is Ok,
        outcome is Ok ==> outcome_view(&outcome)->Ok_0 == outcome->Ok_0,
        outcome is Err ==> outcome_view(&outcome)->Err_0 == outcome->Err_0.0@,
{
}

} // verus!
