//! Capability descriptors and the vocabulary they are written in.

use vstd::prelude::*;

use crate::ids::{CapabilityId, ExtensionId, SecretHandle};

verus! {

/// Runtime lane that executes a capability.
#[derive(Debug, Clone, Copy, PartialEq, Eq, Structural)]
pub enum RuntimeKind {
    Wasm,
    Mcp,
    Script,
    FirstParty,
    System,
}

/// Effect a capability declares.
#[derive(Debug, Clone, Copy, PartialEq, Eq, Structural)]
pub enum EffectKind {
    ReadFilesystem,
    WriteFilesystem,
    DeleteFilesystem,
    Network,
    UseSecret,
    ExecuteCode,
    SpawnProcess,
    DispatchCapability,
    ModifyExtension,
    ModifyApproval,
    ModifyBudget,
    ExternalWrite,
    Financial,
}

/// Default permission a manifest declares for a capability.
#[derive(Debug, Clone, Copy, PartialEq, Eq, Structural)]
pub enum PermissionMode {
    Allow,
    Ask,
    Deny,
}

/// Trust class of a caller or provider.
#[derive(Debug, Clone, Copy, PartialEq, Eq, Structural)]
pub enum TrustClass {
    Sandbox,
    UserTrusted,
    System,
}

/// Who may see a capability.
#[derive(Debug, Clone, Copy, PartialEq, Eq, Structural)]
pub enum CapabilityVisibility {
    Model,
    HostInternal,
}

/// URL scheme of a network target.
#[derive(Debug, Clone, Copy, PartialEq, Eq, Structural)]
pub enum NetworkScheme {
    Http,
    Https,
}

/// A network destination: scheme, host pattern and port.
#[derive(Debug, PartialEq, Eq)]
pub struct NetworkTargetPattern {
    pub scheme: Option<NetworkScheme>,
    pub host_pattern: String,
    pub port: Option<u16>,
}

/// The mathematical value of a [`NetworkTargetPattern`].
#[verifier::ext_equal]
pub struct NetworkTargetPatternView {
    pub scheme: Option<NetworkScheme>,
    pub host_pattern: Seq<char>,
    pub port: Option<u16>,
}

impl View for NetworkTargetPattern {
    type V = NetworkTargetPatternView;

    open spec fn view(&self) -> NetworkTargetPatternView {
        NetworkTargetPatternView {
            scheme: self.scheme,
            host_pattern: self.host_pattern@,
            port: self.port,
        }
    }
}

impl DeepView for NetworkTargetPattern {
    type V = NetworkTargetPatternView;

    open spec fn deep_view(&self) -> NetworkTargetPatternView {
        self@
    }
}

impl Clone for NetworkTargetPattern {
    fn clone(&self) -> (r: Self)
        ensures
            r@ == self@,
    {
        NetworkTargetPattern {
            scheme: self.scheme,
            host_pattern: self.host_pattern.clone(),
            port: self.port,
        }
    }
}

/// Network destinations a request may reach, and how much it may send.
#[derive(Debug, PartialEq, Eq)]
pub struct NetworkPolicy {
    pub allowed_targets: Vec<NetworkTargetPattern>,
    pub deny_private_ip_ranges: bool,
    pub max_egress_bytes: Option<u64>,
}

/// The mathematical value of a [`NetworkPolicy`].
#[verifier::ext_equal]
pub struct NetworkPolicyView {
    pub allowed_targets: Seq<NetworkTargetPatternView>,
    pub deny_private_ip_ranges: bool,
    pub max_egress_bytes: Option<u64>,
}

impl View for NetworkPolicy {
    type V = NetworkPolicyView;

    open spec fn view(&self) -> NetworkPolicyView {
        NetworkPolicyView {
            allowed_targets: self.allowed_targets.deep_view(),
            deny_private_ip_ranges: self.deny_private_ip_ranges,
            max_egress_bytes: self.max_egress_bytes,
        }
    }
}

impl DeepView for NetworkPolicy {
    type V = NetworkPolicyView;

    open spec fn deep_view(&self) -> NetworkPolicyView {
        self@
    }
}

impl Clone for NetworkPolicy {
    fn clone(&self) -> (r: Self)
        ensures
            r@ == self@,
    {
        let r = NetworkPolicy {
            allowed_targets: self.allowed_targets.clone(),
            deny_private_ip_ranges: self.deny_private_ip_ranges,
            max_egress_bytes: self.max_egress_bytes,
        };
        assert(r.allowed_targets.deep_view() =~= self.allowed_targets.deep_view());
        r
    }
}

/// Place in an outgoing request where a credential is written.
#[derive(Debug, PartialEq, Eq)]
pub enum RuntimeCredentialTarget {
    /// A request header, with an optional prefix before the material.
    Header { name: String, prefix: Option<String> },
    /// Any other place, named by the host.
    Other { name: String },
}

/// The mathematical value of a [`RuntimeCredentialTarget`].
#[verifier::ext_equal]
pub enum RuntimeCredentialTargetView {
    Header { name: Seq<char>, prefix: Option<Seq<char>> },
    Other { name: Seq<char> },
}

impl View for RuntimeCredentialTarget {
    type V = RuntimeCredentialTargetView;

    open spec fn view(&self) -> RuntimeCredentialTargetView {
        match self {
            RuntimeCredentialTarget::Header { name, prefix } => RuntimeCredentialTargetView::Header {
                name: name@,
                prefix: prefix.deep_view(),
            },
            RuntimeCredentialTarget::Other { name } => RuntimeCredentialTargetView::Other {
                name: name@,
            },
        }
    }
}

impl DeepView for RuntimeCredentialTarget {
    type V = RuntimeCredentialTargetView;

    open spec fn deep_view(&self) -> RuntimeCredentialTargetView {
        self@
    }
}

impl Clone for RuntimeCredentialTarget {
    fn clone(&self) -> (r: Self)
        ensures
            r@ == self@,
    {
        match self {
            RuntimeCredentialTarget::Header { name, prefix } => {
                let prefix_copy = prefix.clone();
                assert(prefix_copy.deep_view() =~= prefix.deep_view());
                RuntimeCredentialTarget::Header { name: name.clone(), prefix: prefix_copy }
            },
            RuntimeCredentialTarget::Other { name } => RuntimeCredentialTarget::Other {
                name: name.clone(),
            },
        }
    }
}

/// Where a required credential comes from.
#[derive(Debug, PartialEq, Eq)]
pub enum RuntimeCredentialRequirementSource {
    /// The secret behind the handle.
    SecretHandle,
    /// An account of the product at a provider. `setup` is how the account is
    /// set up, as the host writes it.
    ProductAuthAccount { provider: String, setup: String },
    /// A source with no further meaning here, as the host writes it.
    Other { name: String },
}

/// The mathematical value of a [`RuntimeCredentialRequirementSource`].
#[verifier::ext_equal]
pub enum RuntimeCredentialRequirementSourceView {
    SecretHandle,
    ProductAuthAccount { provider: Seq<char>, setup: Seq<char> },
    Other { name: Seq<char> },
}

impl View for RuntimeCredentialRequirementSource {
    type V = RuntimeCredentialRequirementSourceView;

    open spec fn view(&self) -> RuntimeCredentialRequirementSourceView {
        match self {
            RuntimeCredentialRequirementSource::SecretHandle => {
                RuntimeCredentialRequirementSourceView::SecretHandle
            },
            RuntimeCredentialRequirementSource::ProductAuthAccount { provider, setup } => {
                RuntimeCredentialRequirementSourceView::ProductAuthAccount {
                    provider: provider@,
                    setup: setup@,
                }
            },
            RuntimeCredentialRequirementSource::Other { name } => {
                RuntimeCredentialRequirementSourceView::Other { name: name@ }
            },
        }
    }
}

impl DeepView for RuntimeCredentialRequirementSource {
    type V = RuntimeCredentialRequirementSourceView;

    open spec fn deep_view(&self) -> RuntimeCredentialRequirementSourceView {
        self@
    }
}

impl Clone for RuntimeCredentialRequirementSource {
    fn clone(&self) -> (r: Self)
        ensures
            r@ == self@,
    {
        match self {
            RuntimeCredentialRequirementSource::SecretHandle => {
                RuntimeCredentialRequirementSource::SecretHandle
            },
            RuntimeCredentialRequirementSource::ProductAuthAccount { provider, setup } => {
                RuntimeCredentialRequirementSource::ProductAuthAccount {
                    provider: provider.clone(),
                    setup: setup.clone(),
                }
            },
            RuntimeCredentialRequirementSource::Other { name } => {
                RuntimeCredentialRequirementSource::Other { name: name.clone() }
            },
        }
    }
}

/// A credential a capability needs at run time.
#[derive(Debug, PartialEq, Eq)]
pub struct RuntimeCredentialRequirement {
    pub handle: SecretHandle,
    pub source: RuntimeCredentialRequirementSource,
    /// What the credential has to be allowed at its provider.
    pub provider_scopes: Vec<String>,
    /// Destination the credential is meant for.
    pub audience: NetworkTargetPattern,
    pub target: RuntimeCredentialTarget,
    pub required: bool,
}

/// The mathematical value of a [`RuntimeCredentialRequirement`].
#[verifier::ext_equal]
pub struct RuntimeCredentialRequirementView {
    pub handle: Seq<char>,
    pub source: RuntimeCredentialRequirementSourceView,
    pub provider_scopes: Seq<Seq<char>>,
    pub audience: NetworkTargetPatternView,
    pub target: RuntimeCredentialTargetView,
    pub required: bool,
}

impl View for RuntimeCredentialRequirement {
    type V = RuntimeCredentialRequirementView;

    open spec fn view(&self) -> RuntimeCredentialRequirementView {
        RuntimeCredentialRequirementView {
            handle: self.handle@,
            source: self.source@,
            provider_scopes: self.provider_scopes.deep_view(),
            audience: self.audience@,
            target: self.target@,
            required: self.required,
        }
    }
}

impl DeepView for RuntimeCredentialRequirement {
    type V = RuntimeCredentialRequirementView;

    open spec fn deep_view(&self) -> RuntimeCredentialRequirementView {
        self@
    }
}

impl Clone for RuntimeCredentialRequirement {
    fn clone(&self) -> (r: Self)
        ensures
            r@ == self@,
    {
        let r = RuntimeCredentialRequirement {
            handle: self.handle.clone(),
            source: self.source.clone(),
            provider_scopes: self.provider_scopes.clone(),
            audience: self.audience.clone(),
            target: self.target.clone(),
            required: self.required,
        };
        assert(r.provider_scopes.deep_view() =~= self.provider_scopes.deep_view());
        r
    }
}

/// One bounded resource dimension.
#[derive(Debug, PartialEq, Eq)]
pub struct ResourceLimit {
    pub name: String,
    pub amount: u64,
}

/// The mathematical value of a [`ResourceLimit`].
#[verifier::ext_equal]
pub struct ResourceLimitView {
    pub name: Seq<char>,
    pub amount: u64,
}

impl View for ResourceLimit {
    type V = ResourceLimitView;

    open spec fn view(&self) -> ResourceLimitView {
        ResourceLimitView {
            name: self.name@,
            amount: self.amount,
        }
    }
}

impl DeepView for ResourceLimit {
    type V = ResourceLimitView;

    open spec fn deep_view(&self) -> ResourceLimitView {
        self@
    }
}

impl Clone for ResourceLimit {
    fn clone(&self) -> (r: Self)
        ensures
            r@ == self@,
    {
        ResourceLimit {
            name: self.name.clone(),
            amount: self.amount,
        }
    }
}

/// Resources an invocation is expected to use.
#[derive(Debug, PartialEq, Eq)]
pub struct ResourceEstimate {
    pub network_egress_bytes: Option<u64>,
    /// The remaining dimensions.
    pub limits: Vec<ResourceLimit>,
}

/// The mathematical value of a [`ResourceEstimate`].
#[verifier::ext_equal]
pub struct ResourceEstimateView {
    pub network_egress_bytes: Option<u64>,
    pub limits: Seq<ResourceLimitView>,
}

impl View for ResourceEstimate {
    type V = ResourceEstimateView;

    open spec fn view(&self) -> ResourceEstimateView {
        ResourceEstimateView {
            network_egress_bytes: self.network_egress_bytes,
            limits: self.limits.deep_view(),
        }
    }
}

impl DeepView for ResourceEstimate {
    type V = ResourceEstimateView;

    open spec fn deep_view(&self) -> ResourceEstimateView {
        self@
    }
}

impl Clone for ResourceEstimate {
    fn clone(&self) -> (r: Self)
        ensures
            r@ == self@,
    {
        let r = ResourceEstimate {
            network_egress_bytes: self.network_egress_bytes,
            limits: self.limits.clone(),
        };
        assert(r.limits.deep_view() =~= self.limits.deep_view());
        r
    }
}

/// The estimate that names no resource.
pub open spec fn no_estimate() -> ResourceEstimateView {
    ResourceEstimateView { network_egress_bytes: None, limits: Seq::empty() }
}

impl Default for ResourceEstimate {
    /// The estimate that names no resource.
    fn default() -> (r: Self)
        ensures
            r@ == no_estimate(),
    {
        let limits: Vec<ResourceLimit> = Vec::new();
        let estimate = ResourceEstimate { network_egress_bytes: None, limits };
        assert(estimate@.limits =~= no_estimate().limits);
        estimate
    }
}

/// Upper bound on resources, by dimension.
#[derive(Debug, PartialEq, Eq)]
pub struct ResourceCeiling {
    pub limits: Vec<ResourceLimit>,
}

/// The mathematical value of a [`ResourceCeiling`].
#[verifier::ext_equal]
pub struct ResourceCeilingView {
    pub limits: Seq<ResourceLimitView>,
}

impl View for ResourceCeiling {
    type V = ResourceCeilingView;

    open spec fn view(&self) -> ResourceCeilingView {
        ResourceCeilingView {
            limits: self.limits.deep_view(),
        }
    }
}

impl DeepView for ResourceCeiling {
    type V = ResourceCeilingView;

    open spec fn deep_view(&self) -> ResourceCeilingView {
        self@
    }
}

impl Clone for ResourceCeiling {
    fn clone(&self) -> (r: Self)
        ensures
            r@ == self@,
    {
        let r = ResourceCeiling {
            limits: self.limits.clone(),
        };
        assert(r.limits.deep_view() =~= self.limits.deep_view());
        r
    }
}

/// Resource profile a manifest declares for a capability.
#[derive(Debug, PartialEq, Eq)]
pub struct ResourceProfile {
    pub default_estimate: ResourceEstimate,
}

/// The mathematical value of a [`ResourceProfile`].
#[verifier::ext_equal]
pub struct ResourceProfileView {
    pub default_estimate: ResourceEstimateView,
}

impl View for ResourceProfile {
    type V = ResourceProfileView;

    open spec fn view(&self) -> ResourceProfileView {
        ResourceProfileView {
            default_estimate: self.default_estimate@,
        }
    }
}

impl DeepView for ResourceProfile {
    type V = ResourceProfileView;

    open spec fn deep_view(&self) -> ResourceProfileView {
        self@
    }
}

impl Clone for ResourceProfile {
    fn clone(&self) -> (r: Self)
        ensures
            r@ == self@,
    {
        ResourceProfile {
            default_estimate: self.default_estimate.clone(),
        }
    }
}

/// Declarative description of one capability.
#[derive(Debug, PartialEq, Eq)]
pub struct CapabilityDescriptor {
    pub id: CapabilityId,
    pub provider: ExtensionId,
    pub runtime: RuntimeKind,
    pub trust_ceiling: TrustClass,
    pub description: String,
    /// Input schema, as JSON text.
    pub parameters_schema: String,
    pub effects: Vec<EffectKind>,
    pub default_permission: PermissionMode,
    pub runtime_credentials: Vec<RuntimeCredentialRequirement>,
    pub resource_profile: Option<ResourceProfile>,
}

/// The mathematical value of a [`CapabilityDescriptor`].
#[verifier::ext_equal]
pub struct CapabilityDescriptorView {
    pub id: Seq<char>,
    pub provider: Seq<char>,
    pub runtime: RuntimeKind,
    pub trust_ceiling: TrustClass,
    pub description: Seq<char>,
    pub parameters_schema: Seq<char>,
    pub effects: Seq<EffectKind>,
    pub default_permission: PermissionMode,
    pub runtime_credentials: Seq<RuntimeCredentialRequirementView>,
    pub resource_profile: Option<ResourceProfileView>,
}

impl View for CapabilityDescriptor {
    type V = CapabilityDescriptorView;

    open spec fn view(&self) -> CapabilityDescriptorView {
        CapabilityDescriptorView {
            id: self.id@,
            provider: self.provider@,
            runtime: self.runtime,
            trust_ceiling: self.trust_ceiling,
            description: self.description@,
            parameters_schema: self.parameters_schema@,
            effects: self.effects@,
            default_permission: self.default_permission,
            runtime_credentials: self.runtime_credentials.deep_view(),
            resource_profile: self.resource_profile.deep_view(),
        }
    }
}

impl DeepView for CapabilityDescriptor {
    type V = CapabilityDescriptorView;

    open spec fn deep_view(&self) -> CapabilityDescriptorView {
        self@
    }
}

impl Clone for CapabilityDescriptor {
    fn clone(&self) -> (r: Self)
        ensures
            r@ == self@,
    {
        let r = CapabilityDescriptor {
            id: self.id.clone(),
            provider: self.provider.clone(),
            runtime: self.runtime,
            trust_ceiling: self.trust_ceiling,
            description: self.description.clone(),
            parameters_schema: self.parameters_schema.clone(),
            effects: self.effects.clone(),
            default_permission: self.default_permission,
            runtime_credentials: self.runtime_credentials.clone(),
            resource_profile: self.resource_profile.clone(),
        };
        assert(r.effects@ =~= self.effects@);
        assert(r.runtime_credentials.deep_view() =~= self.runtime_credentials.deep_view());
        assert(r.resource_profile.deep_view() =~= self.resource_profile.deep_view());
        r
    }
}

/// Where the material of an injected credential comes from.
#[derive(Debug, PartialEq, Eq)]
pub enum RuntimeCredentialSource {
    /// Material staged for one capability before the request runs.
    StagedObligation { capability_id: CapabilityId },
    /// Any other source, named by the host.
    Other { name: String },
}

/// The mathematical value of a [`RuntimeCredentialSource`].
#[verifier::ext_equal]
pub enum RuntimeCredentialSourceView {
    StagedObligation { capability_id: Seq<char> },
    Other { name: Seq<char> },
}

impl View for RuntimeCredentialSource {
    type V = RuntimeCredentialSourceView;

    open spec fn view(&self) -> RuntimeCredentialSourceView {
        match self {
            RuntimeCredentialSource::StagedObligation { capability_id } => RuntimeCredentialSourceView::StagedObligation {
                capability_id: capability_id@,
            },
            RuntimeCredentialSource::Other { name } => RuntimeCredentialSourceView::Other {
                name: name@,
            },
        }
    }
}

impl DeepView for RuntimeCredentialSource {
    type V = RuntimeCredentialSourceView;

    open spec fn deep_view(&self) -> RuntimeCredentialSourceView {
        self@
    }
}

impl Clone for RuntimeCredentialSource {
    fn clone(&self) -> (r: Self)
        ensures
            r@ == self@,
    {
        match self {
            RuntimeCredentialSource::StagedObligation { capability_id } => RuntimeCredentialSource::StagedObligation {
                capability_id: capability_id.clone(),
            },
            RuntimeCredentialSource::Other { name } => RuntimeCredentialSource::Other {
                name: name.clone(),
            },
        }
    }
}

/// A credential to be written into an outgoing request.
#[derive(Debug, PartialEq, Eq)]
pub struct RuntimeCredentialInjection {
    pub handle: SecretHandle,
    pub source: RuntimeCredentialSource,
    pub target: RuntimeCredentialTarget,
    pub required: bool,
}

/// The mathematical value of a [`RuntimeCredentialInjection`].
#[verifier::ext_equal]
pub struct RuntimeCredentialInjectionView {
    pub handle: Seq<char>,
    pub source: RuntimeCredentialSourceView,
    pub target: RuntimeCredentialTargetView,
    pub required: bool,
}

impl View for RuntimeCredentialInjection {
    type V = RuntimeCredentialInjectionView;

    open spec fn view(&self) -> RuntimeCredentialInjectionView {
        RuntimeCredentialInjectionView {
            handle: self.handle@,
            source: self.source@,
            target: self.target@,
            required: self.required,
        }
    }
}

impl DeepView for RuntimeCredentialInjection {
    type V = RuntimeCredentialInjectionView;

    open spec fn deep_view(&self) -> RuntimeCredentialInjectionView {
        self@
    }
}

impl Clone for RuntimeCredentialInjection {
    fn clone(&self) -> (r: Self)
        ensures
            r@ == self@,
    {
        RuntimeCredentialInjection {
            handle: self.handle.clone(),
            source: self.source.clone(),
            target: self.target.clone(),
            required: self.required,
        }
    }
}

} // verus!
