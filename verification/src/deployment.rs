//! Deployments that the operator scales or adopts, and the proxy that it deploys.

use crate::meta::{
    added_owner_is_an_owner, ObjectMeta, ObjectMetaView, OwnerReference, OwnerReferenceView,
};
use crate::replaced_service::{ReplacedServiceSpec, ReplacedServiceSpecView};
use crate::service::tsproxy_labels;
use crate::string_map::StringMap;
use vstd::prelude::*;

verus! {

/// The whole specification of a deployment. The operator only carries it along.
#[verifier::external_type_specification]
#[verifier::external_body]
pub struct ExDeploymentSpec(k8s_openapi::api::apps::v1::DeploymentSpec);

/// What the cluster reports about a deployment. The operator only carries it along.
#[verifier::external_type_specification]
#[verifier::external_body]
pub struct ExDeploymentStatus(k8s_openapi::api::apps::v1::DeploymentStatus);

/// The specification of a deployment: how many replicas it asks for, and the rest.
#[derive(Debug)]
pub struct ReplicaSpec {
    pub replicas: Option<i32>,
    /// Everything but the number of replicas, which is not read from here
    pub rest: k8s_openapi::api::apps::v1::DeploymentSpec,
}

/// The mathematical view of [`ReplicaSpec`].
#[verifier::ext_equal]
pub struct ReplicaSpecView {
    pub replicas: Option<i32>,
    pub rest: k8s_openapi::api::apps::v1::DeploymentSpec,
}

impl View for ReplicaSpec {
    type V = ReplicaSpecView;

    open spec fn view(&self) -> ReplicaSpecView {
        ReplicaSpecView {
            replicas: self.replicas,
            rest: self.rest,
        }
    }
}

impl DeepView for ReplicaSpec {
    type V = ReplicaSpecView;

    open spec fn deep_view(&self) -> ReplicaSpecView {
        self.view()
    }
}

/// A deployment that is in the cluster.
#[derive(Debug)]
pub struct Deployment {
    pub metadata: ObjectMeta,
    pub spec: Option<ReplicaSpec>,
    pub status: Option<k8s_openapi::api::apps::v1::DeploymentStatus>,
}

/// The mathematical view of [`Deployment`].
#[verifier::ext_equal]
pub struct DeploymentView {
    pub metadata: ObjectMetaView,
    pub spec: Option<ReplicaSpecView>,
    pub status: Option<k8s_openapi::api::apps::v1::DeploymentStatus>,
}

impl View for Deployment {
    type V = DeploymentView;

    open spec fn view(&self) -> DeploymentView {
        DeploymentView {
            metadata: self.metadata@,
            spec: self.spec.deep_view(),
            status: self.status,
        }
    }
}

impl DeepView for Deployment {
    type V = DeploymentView;

    open spec fn deep_view(&self) -> DeploymentView {
        self.view()
    }
}

impl DeploymentView {
    /// The same deployment with another number of replicas. One without a
    /// specification stays as it is.
    pub open spec fn scaled(self, replicas: i32) -> DeploymentView {
        DeploymentView {
            spec: match self.spec {
                Some(spec) => Some(ReplicaSpecView { replicas: Some(replicas), ..spec }),
                None => None,
            },
            ..self
        }
    }

    /// The same deployment with one more owner.
    pub open spec fn with_owner(self, owner: OwnerReferenceView) -> DeploymentView {
        DeploymentView { metadata: self.metadata.with_owner(owner), ..self }
    }

    /// The number of replicas that the deployment asks for.
    pub open spec fn replicas(self) -> Option<i32> {
        match self.spec {
            Some(spec) => spec.replicas,
            None => None,
        }
    }
}

impl Deployment {
    /// Asks for another number of replicas.
    pub fn scale(self, replicas: i32) -> (deployment: Deployment)
        ensures
            deployment@ == self@.scaled(replicas),
            deployment.metadata == self.metadata,
            deployment.status == self.status,
            self.spec is None ==> deployment.spec is None,
            self.spec is Some ==> deployment.spec == Some(
                ReplicaSpec { replicas: Some(replicas), rest: self.spec->0.rest },
            ),
    {
        let spec = match self.spec {
            Some(spec) => Some(ReplicaSpec { replicas: Some(replicas), rest: spec.rest }),
            None => None,
        };
        Deployment { metadata: self.metadata, spec, status: self.status }
    }

    /// Adds an owner behind those that the deployment has.
    pub fn add_owner(self, owner: OwnerReference) -> (deployment: Deployment)
        ensures
            deployment@ == self@.with_owner(owner@),
            deployment.spec == self.spec,
            deployment.status == self.status,
    {
        Deployment {
            metadata: self.metadata.add_owner(owner),
            spec: self.spec,
            status: self.status,
        }
    }
}

/// Scaling a deployment down and up again gives what scaling it up at once gives, and
/// changes nothing but the number of replicas.
pub proof fn scaling_up_undoes_scaling_down(deployment: DeploymentView, down: i32, up: i32)
    ensures
        deployment.scaled(down).scaled(up) == deployment.scaled(up),
        deployment.spec is Some ==> deployment.scaled(up).replicas() == Some(up),
        deployment.scaled(up).metadata == deployment.metadata,
        deployment.scaled(up).status == deployment.status,
        deployment.replicas() == Some(up) ==> deployment.scaled(up) == deployment,
{
}

/// A key of a secret.
#[derive(Debug, PartialEq)]
pub struct SecretKeySelector {
    pub key: String,
    pub name: Option<String>,
    pub optional: Option<bool>,
}

/// The mathematical view of [`SecretKeySelector`].
#[verifier::ext_equal]
pub struct SecretKeySelectorView {
    pub key: Seq<char>,
    pub name: Option<Seq<char>>,
    pub optional: Option<bool>,
}

impl View for SecretKeySelector {
    type V = SecretKeySelectorView;

    open spec fn view(&self) -> SecretKeySelectorView {
        SecretKeySelectorView {
            key: self.key@,
            name: self.name.deep_view(),
            optional: self.optional,
        }
    }
}

impl DeepView for SecretKeySelector {
    type V = SecretKeySelectorView;

    open spec fn deep_view(&self) -> SecretKeySelectorView {
        self.view()
    }
}

/// An environment variable of a container.
#[derive(Debug, PartialEq)]
pub struct EnvVar {
    pub name: String,
    pub value: Option<String>,
    /// The secret that the value is taken from
    pub secret_key_ref: Option<SecretKeySelector>,
}

/// The mathematical view of [`EnvVar`].
#[verifier::ext_equal]
pub struct EnvVarView {
    pub name: Seq<char>,
    pub value: Option<Seq<char>>,
    pub secret_key_ref: Option<SecretKeySelectorView>,
}

impl View for EnvVar {
    type V = EnvVarView;

    open spec fn view(&self) -> EnvVarView {
        EnvVarView {
            name: self.name@,
            value: self.value.deep_view(),
            secret_key_ref: self.secret_key_ref.deep_view(),
        }
    }
}

impl DeepView for EnvVar {
    type V = EnvVarView;

    open spec fn deep_view(&self) -> EnvVarView {
        self.view()
    }
}

/// Capabilities that a container gains.
#[derive(Debug, PartialEq)]
pub struct Capabilities {
    pub add: Option<Vec<String>>,
}

/// The mathematical view of [`Capabilities`].
#[verifier::ext_equal]
pub struct CapabilitiesView {
    pub add: Option<Seq<Seq<char>>>,
}

impl View for Capabilities {
    type V = CapabilitiesView;

    open spec fn view(&self) -> CapabilitiesView {
        CapabilitiesView {
            add: self.add.deep_view(),
        }
    }
}

impl DeepView for Capabilities {
    type V = CapabilitiesView;

    open spec fn deep_view(&self) -> CapabilitiesView {
        self.view()
    }
}

/// The privileges of a container.
#[derive(Debug, PartialEq)]
pub struct SecurityContext {
    pub capabilities: Option<Capabilities>,
    pub privileged: Option<bool>,
}

/// The mathematical view of [`SecurityContext`].
#[verifier::ext_equal]
pub struct SecurityContextView {
    pub capabilities: Option<CapabilitiesView>,
    pub privileged: Option<bool>,
}

impl View for SecurityContext {
    type V = SecurityContextView;

    open spec fn view(&self) -> SecurityContextView {
        SecurityContextView {
            capabilities: self.capabilities.deep_view(),
            privileged: self.privileged,
        }
    }
}

impl DeepView for SecurityContext {
    type V = SecurityContextView;

    open spec fn deep_view(&self) -> SecurityContextView {
        self.view()
    }
}

/// A container of the proxy.
#[derive(Debug, PartialEq)]
pub struct Container {
    pub name: String,
    pub image: Option<String>,
    pub image_pull_policy: Option<String>,
    pub command: Option<Vec<String>>,
    pub args: Option<Vec<String>>,
    pub security_context: Option<SecurityContext>,
    pub env: Option<Vec<EnvVar>>,
}

/// The mathematical view of [`Container`].
#[verifier::ext_equal]
pub struct ContainerView {
    pub name: Seq<char>,
    pub image: Option<Seq<char>>,
    pub image_pull_policy: Option<Seq<char>>,
    pub command: Option<Seq<Seq<char>>>,
    pub args: Option<Seq<Seq<char>>>,
    pub security_context: Option<SecurityContextView>,
    pub env: Option<Seq<EnvVarView>>,
}

impl View for Container {
    type V = ContainerView;

    open spec fn view(&self) -> ContainerView {
        ContainerView {
            name: self.name@,
            image: self.image.deep_view(),
            image_pull_policy: self.image_pull_policy.deep_view(),
            command: self.command.deep_view(),
            args: self.args.deep_view(),
            security_context: self.security_context.deep_view(),
            env: self.env.deep_view(),
        }
    }
}

impl DeepView for Container {
    type V = ContainerView;

    open spec fn deep_view(&self) -> ContainerView {
        self.view()
    }
}

/// The pods of the proxy.
#[derive(Debug)]
pub struct PodSpec {
    pub service_account: Option<String>,
    pub node_selector: Option<StringMap>,
    pub init_containers: Option<Vec<Container>>,
    pub containers: Vec<Container>,
}

/// The mathematical view of [`PodSpec`].
#[verifier::ext_equal]
pub struct PodSpecView {
    pub service_account: Option<Seq<char>>,
    pub node_selector: Option<Map<Seq<char>, Seq<char>>>,
    pub init_containers: Option<Seq<ContainerView>>,
    pub containers: Seq<ContainerView>,
}

impl View for PodSpec {
    type V = PodSpecView;

    open spec fn view(&self) -> PodSpecView {
        PodSpecView {
            service_account: self.service_account.deep_view(),
            node_selector: self.node_selector.deep_view(),
            init_containers: self.init_containers.deep_view(),
            containers: self.containers.deep_view(),
        }
    }
}

impl DeepView for PodSpec {
    type V = PodSpecView;

    open spec fn deep_view(&self) -> PodSpecView {
        self.view()
    }
}

/// The specification of the proxy deployment.
#[derive(Debug)]
pub struct ProxyDeploymentSpec {
    pub replicas: Option<i32>,
    /// How pods are replaced
    pub strategy: Option<String>,
    /// The labels by which the deployment finds its pods
    pub match_labels: Option<StringMap>,
    /// The labels that its pods get
    pub template_labels: Option<StringMap>,
    pub template: Option<PodSpec>,
}

/// The mathematical view of [`ProxyDeploymentSpec`].
#[verifier::ext_equal]
pub struct ProxyDeploymentSpecView {
    pub replicas: Option<i32>,
    pub strategy: Option<Seq<char>>,
    pub match_labels: Option<Map<Seq<char>, Seq<char>>>,
    pub template_labels: Option<Map<Seq<char>, Seq<char>>>,
    pub template: Option<PodSpecView>,
}

impl View for ProxyDeploymentSpec {
    type V = ProxyDeploymentSpecView;

    open spec fn view(&self) -> ProxyDeploymentSpecView {
        ProxyDeploymentSpecView {
            replicas: self.replicas,
            strategy: self.strategy.deep_view(),
            match_labels: self.match_labels.deep_view(),
            template_labels: self.template_labels.deep_view(),
            template: self.template.deep_view(),
        }
    }
}

impl DeepView for ProxyDeploymentSpec {
    type V = ProxyDeploymentSpecView;

    open spec fn deep_view(&self) -> ProxyDeploymentSpecView {
        self.view()
    }
}

/// The deployment of the proxy, as it is created.
#[derive(Debug)]
pub struct ProxyDeployment {
    pub metadata: ObjectMeta,
    pub spec: Option<ProxyDeploymentSpec>,
}

/// The mathematical view of [`ProxyDeployment`].
#[verifier::ext_equal]
pub struct ProxyDeploymentView {
    pub metadata: ObjectMetaView,
    pub spec: Option<ProxyDeploymentSpecView>,
}

impl View for ProxyDeployment {
    type V = ProxyDeploymentView;

    open spec fn view(&self) -> ProxyDeploymentView {
        ProxyDeploymentView {
            metadata: self.metadata@,
            spec: self.spec.deep_view(),
        }
    }
}

impl DeepView for ProxyDeployment {
    type V = ProxyDeploymentView;

    open spec fn deep_view(&self) -> ProxyDeploymentView {
        self.view()
    }
}

/// A secret that the operator creates.
#[derive(Debug)]
pub struct Secret {
    pub metadata: ObjectMeta,
    pub string_data: Option<StringMap>,
}

/// The mathematical view of [`Secret`].
#[verifier::ext_equal]
pub struct SecretView {
    pub metadata: ObjectMetaView,
    pub string_data: Option<Map<Seq<char>, Seq<char>>>,
}

impl View for Secret {
    type V = SecretView;

    open spec fn view(&self) -> SecretView {
        SecretView {
            metadata: self.metadata@,
            string_data: self.string_data.deep_view(),
        }
    }
}

impl DeepView for Secret {
    type V = SecretView;

    open spec fn deep_view(&self) -> SecretView {
        self.view()
    }
}

/// The name of the proxy deployment.
pub open spec fn proxy_deployment_name() -> Seq<char> {
    "tailscale-outbound-proxy"@
}

/// An environment variable with a fixed value.
pub open spec fn plain_env(name: Seq<char>, value: Seq<char>) -> EnvVarView {
    EnvVarView { name, value: Some(value), secret_key_ref: None }
}

fn make_plain_env(name: &str, value: String) -> (env: EnvVar)
    ensures
        env@ == plain_env(name@, value@),
{
    EnvVar { name: name.to_string(), value: Some(value), secret_key_ref: None }
}

/// The environment of the proxy container.
pub open spec fn proxy_env(spec: ReplacedServiceSpecView) -> Seq<EnvVarView> {
    seq![
        plain_env("TS_KUBE_SECRET"@, spec.proxy_state_secret_name),
        plain_env("TS_USERSPACE"@, "true"@),
        plain_env("TS_AUTH_ONCE"@, "true"@),
        plain_env("TS_EXTRA_ARGS"@, "--ssh"@),
        plain_env("TS_HOSTNAME"@, spec.tailscale_host_name),
        EnvVarView {
            name: "TS_AUTHKEY"@,
            value: None,
            secret_key_ref: Some(
                SecretKeySelectorView {
                    key: "TS_AUTHKEY"@,
                    name: Some(spec.proxy_state_secret_name),
                    optional: Some(false),
                },
            ),
        },
    ]
}

fn make_proxy_env(spec: &ReplacedServiceSpec) -> (env: Vec<EnvVar>)
    ensures
        env.deep_view() == proxy_env(spec@),
{
    let mut env: Vec<EnvVar> = Vec::new();
    env.push(make_plain_env("TS_KUBE_SECRET", spec.proxy_state_secret_name.clone()));
    env.push(make_plain_env("TS_USERSPACE", "true".to_string()));
    env.push(make_plain_env("TS_AUTH_ONCE", "true".to_string()));
    env.push(make_plain_env("TS_EXTRA_ARGS", "--ssh".to_string()));
    env.push(make_plain_env("TS_HOSTNAME", spec.tailscale_host_name.clone()));
    env.push(
        EnvVar {
            name: "TS_AUTHKEY".to_string(),
            value: None,
            secret_key_ref: Some(
                SecretKeySelector {
                    key: "TS_AUTHKEY".to_string(),
                    name: Some(spec.proxy_state_secret_name.clone()),
                    optional: Some(false),
                },
            ),
        },
    );
    proof {
        assert(env.deep_view() =~= proxy_env(spec@));
    }
    env
}

/// The container that lets the pod forward packets before the proxy starts.
pub open spec fn sysctl_container() -> ContainerView {
    ContainerView {
        name: "sysctler"@,
        image: Some("busybox"@),
        image_pull_policy: Some("Always"@),
        command: Some(seq!["/bin/sh"@]),
        args: Some(
            seq!["-c"@, "sysctl -w net.ipv4.ip_forward=1 net.ipv6.conf.all.forwarding=1"@],
        ),
        security_context: Some(
            SecurityContextView { capabilities: None, privileged: Some(true) },
        ),
        env: None,
    }
}

fn make_sysctl_container() -> (container: Container)
    ensures
        container@ == sysctl_container(),
{
    let mut command: Vec<String> = Vec::new();
    command.push("/bin/sh".to_string());
    let mut args: Vec<String> = Vec::new();
    args.push("-c".to_string());
    args.push("sysctl -w net.ipv4.ip_forward=1 net.ipv6.conf.all.forwarding=1".to_string());
    proof {
        assert(command.deep_view() =~= sysctl_container().command->0);
        assert(args.deep_view() =~= sysctl_container().args->0);
    }
    Container {
        name: "sysctler".to_string(),
        image: Some("busybox".to_string()),
        image_pull_policy: Some("Always".to_string()),
        command: Some(command),
        args: Some(args),
        security_context: Some(SecurityContext { capabilities: None, privileged: Some(true) }),
        env: None,
    }
}

/// The container that runs the proxy.
pub open spec fn proxy_container(spec: ReplacedServiceSpecView) -> ContainerView {
    ContainerView {
        name: "tailscale"@,
        image: Some("ghcr.io/digizuite/tailscale-fix:sha-a82e762"@),
        image_pull_policy: Some("Always"@),
        command: None,
        args: None,
        security_context: Some(
            SecurityContextView {
                capabilities: Some(CapabilitiesView { add: Some(seq!["NET_ADMIN"@]) }),
                privileged: None,
            },
        ),
        env: Some(proxy_env(spec)),
    }
}

fn make_proxy_container(spec: &ReplacedServiceSpec) -> (container: Container)
    ensures
        container@ == proxy_container(spec@),
{
    let mut added: Vec<String> = Vec::new();
    added.push("NET_ADMIN".to_string());
    proof {
        assert(added.deep_view() =~= seq!["NET_ADMIN"@]);
    }
    Container {
        name: "tailscale".to_string(),
        image: Some("ghcr.io/digizuite/tailscale-fix:sha-a82e762".to_string()),
        image_pull_policy: Some("Always".to_string()),
        command: None,
        args: None,
        security_context: Some(
            SecurityContext {
                capabilities: Some(Capabilities { add: Some(added) }),
                privileged: None,
            },
        ),
        env: Some(make_proxy_env(spec)),
    }
}

/// The deployment of the proxy in a namespace. It is created without an owner; an
/// owner is added when the deployment is next found.
pub open spec fn proxy_deployment(
    namespace: Seq<char>,
    spec: ReplacedServiceSpecView,
) -> ProxyDeploymentView {
    let labels = crate::service::proxy_labels();
    ProxyDeploymentView {
        metadata: ObjectMetaView {
            labels: Some(labels),
            name: Some(proxy_deployment_name()),
            namespace: Some(namespace),
            ..ObjectMetaView::empty()
        },
        spec: Some(
            ProxyDeploymentSpecView {
                replicas: Some(1),
                strategy: Some("Recreate"@),
                match_labels: Some(labels),
                template_labels: Some(labels),
                template: Some(
                    PodSpecView {
                        service_account: Some(spec.service_account),
                        node_selector: spec.node_selector,
                        init_containers: Some(seq![sysctl_container()]),
                        containers: seq![proxy_container(spec)],
                    },
                ),
            },
        ),
    }
}

/// Builds the deployment of the proxy.
pub fn make_proxy_deployment(
    namespace: String,
    spec: &ReplacedServiceSpec,
) -> (deployment: ProxyDeployment)
    ensures
        deployment@ == proxy_deployment(namespace@, spec@),
        deployment.spec is Some,
        deployment.spec->0.template is Some,
        deployment.spec->0.template->0.node_selector.deep_view()
            == spec.node_selector.deep_view(),
{
    let mut metadata = ObjectMeta::empty();
    metadata.labels = Some(tsproxy_labels());
    metadata.name = Some("tailscale-outbound-proxy".to_string());
    metadata.namespace = Some(namespace);
    let mut init_containers: Vec<Container> = Vec::new();
    init_containers.push(make_sysctl_container());
    let mut containers: Vec<Container> = Vec::new();
    containers.push(make_proxy_container(spec));
    proof {
        assert(init_containers.deep_view() =~= seq![sysctl_container()]);
        assert(containers.deep_view() =~= seq![proxy_container(spec@)]);
    }
    ProxyDeployment {
        metadata,
        spec: Some(
            ProxyDeploymentSpec {
                replicas: Some(1),
                strategy: Some("Recreate".to_string()),
                match_labels: Some(tsproxy_labels()),
                template_labels: Some(tsproxy_labels()),
                template: Some(
                    PodSpec {
                        service_account: Some(spec.service_account.clone()),
                        node_selector: match &spec.node_selector {
                            Some(selector) => Some(selector.clone()),
                            None => None,
                        },
                        init_containers: Some(init_containers),
                        containers,
                    },
                ),
            },
        ),
    }
}

/// The secret that hands an auth key to the proxy.
pub open spec fn auth_key_secret(
    name: Seq<char>,
    namespace: Seq<char>,
    owner: OwnerReferenceView,
    auth_key: Seq<char>,
) -> SecretView {
    SecretView {
        metadata: ObjectMetaView {
            name: Some(name),
            namespace: Some(namespace),
            owner_references: Some(seq![owner]),
            ..ObjectMetaView::empty()
        },
        string_data: Some(map!["TS_AUTHKEY"@ => auth_key]),
    }
}

/// Builds the secret that hands an auth key to the proxy.
pub fn make_auth_key_secret(
    name: String,
    namespace: String,
    owner: OwnerReference,
    auth_key: String,
) -> (secret: Secret)
    ensures
        secret@ == auth_key_secret(name@, namespace@, owner@, auth_key@),
        secret.metadata.name == Some(name),
        secret.metadata.namespace == Some(namespace),
        secret.string_data is Some,
        secret.string_data->0@ == map!["TS_AUTHKEY"@ => auth_key@],
{
    let mut owners: Vec<OwnerReference> = Vec::new();
    owners.push(owner);
    proof {
        assert(owners.deep_view() =~= seq![owner@]);
    }
    let mut metadata = ObjectMeta::empty();
    metadata.name = Some(name);
    metadata.namespace = Some(namespace);
    metadata.owner_references = Some(owners);
    Secret {
        metadata,
        string_data: Some(StringMap::singleton("TS_AUTHKEY".to_string(), auth_key)),
    }
}

/// A variable takes its value from a secret, and finds this text there.
pub open spec fn reads_from_secret(env: EnvVarView, secret: SecretView, text: Seq<char>) -> bool {
    match (env.secret_key_ref, secret.string_data) {
        (Some(reference), Some(data)) => {
            &&& reference.name == secret.metadata.name
            &&& data.contains_key(reference.key)
            &&& data[reference.key] == text
        },
        _ => false,
    }
}

/// The proxy finds the auth key where the operator puts it: the variable that carries
/// the key names the secret, and the key under which the secret holds it.
pub proof fn proxy_reads_the_secret(
    spec: ReplacedServiceSpecView,
    namespace: Seq<char>,
    owner: OwnerReferenceView,
    auth_key: Seq<char>,
)
    ensures
        exists|i: int|
            0 <= i < proxy_env(spec).len() && (#[trigger] proxy_env(spec)[i]).name
                == "TS_AUTHKEY"@ && reads_from_secret(
                proxy_env(spec)[i],
                auth_key_secret(spec.proxy_state_secret_name, namespace, owner, auth_key),
                auth_key,
            ),
{
    assert(proxy_env(spec)[5].name == "TS_AUTHKEY"@);
}

/// The services that lead to the proxy select the pods that the proxy deployment
/// creates.
pub proof fn proxy_services_select_proxy_pods(
    spec: ReplacedServiceSpecView,
    deployment_namespace: Seq<char>,
    name: Seq<char>,
    namespace: Seq<char>,
    owner: OwnerReferenceView,
    ports: Option<Seq<crate::service::ServicePortView>>,
)
    ensures
        crate::service::proxy_service(name, namespace, owner, ports).spec->0.selector
            == proxy_deployment(deployment_namespace, spec).spec->0.template_labels,
        proxy_deployment(deployment_namespace, spec).spec->0.match_labels == proxy_deployment(
            deployment_namespace,
            spec,
        ).spec->0.template_labels,
{
}

/// Scaling sets the number of replicas and leaves everything else of the deployment as it
/// is.
pub proof fn scaling_sets_the_replicas_alone(deployment: DeploymentView, replicas: i32)
    ensures
        deployment.scaled(replicas).metadata == deployment.metadata,
        deployment.scaled(replicas).status == deployment.status,
        deployment.spec is None ==> deployment.scaled(replicas).spec is None,
        deployment.spec is Some ==> {
            &&& deployment.scaled(replicas).spec is Some
            &&& deployment.scaled(replicas).spec->0.replicas == Some(replicas)
            &&& deployment.scaled(replicas).spec->0.rest == deployment.spec->0.rest
        },
{
}

/// A deployment that gets an owner keeps the owners that it has, what it runs and how often.
pub proof fn adopting_changes_the_owners_alone(
    deployment: DeploymentView,
    owner: OwnerReferenceView,
)
    ensures
        deployment.with_owner(owner).metadata.owned_by(owner.uid),
        deployment.with_owner(owner).metadata.owners() == deployment.metadata.owners().push(owner),
        (ObjectMetaView {
            owner_references: deployment.metadata.owner_references,
            ..deployment.with_owner(owner).metadata
        }) == deployment.metadata,
        deployment.with_owner(owner).spec == deployment.spec,
        deployment.with_owner(owner).status == deployment.status,
{
    added_owner_is_an_owner(deployment.metadata, owner);
}

/// The deployment of the proxy stands under one fixed name in the namespace that it was
/// given, runs one pod at a time, and runs it where the resource asks for: under its service
/// account, and on the nodes that its selector picks, or on any node where it has none.
pub proof fn proxy_runs_where_the_resource_asks(
    namespace: Seq<char>,
    spec: ReplacedServiceSpecView,
    label: Seq<char>,
)
    ensures
        proxy_deployment(namespace, spec).metadata.name == Some("tailscale-outbound-proxy"@),
        proxy_deployment_name() == "tailscale-outbound-proxy"@,
        proxy_deployment(namespace, spec).metadata.namespace == Some(namespace),
        proxy_deployment(namespace, spec).metadata.labels is Some,
        proxy_deployment(namespace, spec).metadata.labels->0.contains_key(label) <==> label
            == "app"@,
        proxy_deployment(namespace, spec).metadata.labels->0["app"@]
            == "tailscale-outbound-proxy"@,
        (ObjectMetaView {
            name: None,
            namespace: None,
            labels: None,
            ..proxy_deployment(namespace, spec).metadata
        }) == ObjectMetaView::empty(),
        proxy_deployment(namespace, spec).spec is Some,
        proxy_deployment(namespace, spec).spec->0.replicas == Some(1i32),
        proxy_deployment(namespace, spec).spec->0.strategy == Some("Recreate"@),
        proxy_deployment(namespace, spec).spec->0.match_labels == proxy_deployment(
            namespace,
            spec,
        ).metadata.labels,
        proxy_deployment(namespace, spec).spec->0.template_labels == proxy_deployment(
            namespace,
            spec,
        ).metadata.labels,
        proxy_deployment(namespace, spec).spec->0.template is Some,
        proxy_deployment(namespace, spec).spec->0.template->0.service_account == Some(
            spec.service_account,
        ),
        proxy_deployment(namespace, spec).spec->0.template->0.node_selector
            == spec.node_selector,
{
}

/// The pods of the proxy have one container to prepare the pod, which may change the
/// kernel's settings and lets it forward packets, and one that runs the proxy, which may
/// change the network.
pub proof fn proxy_pod_has_two_containers(namespace: Seq<char>, spec: ReplacedServiceSpecView)
    ensures
        proxy_deployment(namespace, spec).spec->0.template->0.init_containers is Some,
        ({
            let pod = proxy_deployment(namespace, spec).spec->0.template->0;
            let first = pod.init_containers->0[0];
            let proxy = pod.containers[0];
            &&& pod.init_containers->0.len() == 1
            &&& pod.containers.len() == 1
            &&& first.name == "sysctler"@
            &&& first.image == Some("busybox"@)
            &&& first.image_pull_policy == Some("Always"@)
            &&& first.command is Some && first.command->0.len() == 1
            &&& first.command->0[0] == "/bin/sh"@
            &&& first.args is Some && first.args->0.len() == 2
            &&& first.args->0[0] == "-c"@
            &&& first.args->0[1]
                == "sysctl -w net.ipv4.ip_forward=1 net.ipv6.conf.all.forwarding=1"@
            &&& first.security_context is Some
            &&& first.security_context->0.privileged == Some(true)
            &&& first.security_context->0.capabilities is None
            &&& first.env is None
            &&& proxy.name == "tailscale"@
            &&& proxy.image == Some("ghcr.io/digizuite/tailscale-fix:sha-a82e762"@)
            &&& proxy.image_pull_policy == Some("Always"@)
            &&& proxy.command is None
            &&& proxy.args is None
            &&& proxy.security_context is Some
            &&& proxy.security_context->0.privileged is None
            &&& proxy.security_context->0.capabilities is Some
            &&& proxy.security_context->0.capabilities->0.add is Some
            &&& proxy.security_context->0.capabilities->0.add->0.len() == 1
            &&& proxy.security_context->0.capabilities->0.add->0[0] == "NET_ADMIN"@
            &&& proxy.env == Some(proxy_env(spec))
        }),
{
}

/// The proxy is told where it keeps its state and under which name it joins the tailnet, as
/// the resource says; it takes its key from the secret that the resource names, which must
/// be there; and the rest is fixed.
pub proof fn proxy_is_told_what_the_resource_says(spec: ReplacedServiceSpecView)
    ensures
        proxy_env(spec).len() == 6,
        proxy_env(spec)[0].name == "TS_KUBE_SECRET"@,
        proxy_env(spec)[0].value == Some(spec.proxy_state_secret_name),
        proxy_env(spec)[1].name == "TS_USERSPACE"@,
        proxy_env(spec)[1].value == Some("true"@),
        proxy_env(spec)[2].name == "TS_AUTH_ONCE"@,
        proxy_env(spec)[2].value == Some("true"@),
        proxy_env(spec)[3].name == "TS_EXTRA_ARGS"@,
        proxy_env(spec)[3].value == Some("--ssh"@),
        proxy_env(spec)[4].name == "TS_HOSTNAME"@,
        proxy_env(spec)[4].value == Some(spec.tailscale_host_name),
        forall|i: int| 0 <= i < 5 ==> (#[trigger] proxy_env(spec)[i]).secret_key_ref is None,
        proxy_env(spec)[5].name == "TS_AUTHKEY"@,
        proxy_env(spec)[5].value is None,
        proxy_env(spec)[5].secret_key_ref is Some,
        proxy_env(spec)[5].secret_key_ref->0.key == "TS_AUTHKEY"@,
        proxy_env(spec)[5].secret_key_ref->0.name == Some(spec.proxy_state_secret_name),
        proxy_env(spec)[5].secret_key_ref->0.optional == Some(false),
{
}

/// The secret stands under the name and in the namespace that it was given, has one owner,
/// and holds the key that was created, and nothing else.
pub proof fn secret_holds_the_key_alone(
    name: Seq<char>,
    namespace: Seq<char>,
    owner: OwnerReferenceView,
    auth_key: Seq<char>,
    entry: Seq<char>,
)
    ensures
        auth_key_secret(name, namespace, owner, auth_key).metadata.name == Some(name),
        auth_key_secret(name, namespace, owner, auth_key).metadata.namespace == Some(namespace),
        auth_key_secret(name, namespace, owner, auth_key).metadata.owner_references is Some,
        auth_key_secret(name, namespace, owner, auth_key).metadata.owner_references->0.len() == 1,
        auth_key_secret(name, namespace, owner, auth_key).metadata.owner_references->0[0]
            == owner,
        (ObjectMetaView {
            name: None,
            namespace: None,
            owner_references: None,
            ..auth_key_secret(name, namespace, owner, auth_key).metadata
        }) == ObjectMetaView::empty(),
        auth_key_secret(name, namespace, owner, auth_key).string_data is Some,
        auth_key_secret(name, namespace, owner, auth_key).string_data->0.contains_key(entry)
            <==> entry == "TS_AUTHKEY"@,
        auth_key_secret(name, namespace, owner, auth_key).string_data->0["TS_AUTHKEY"@]
            == auth_key,
{
}

} // verus!
