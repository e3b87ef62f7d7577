//! HTTP requests that the host makes on its own behalf.
//!
//! The host authorizes the network policy, stages each secret, sends the request
//! and discards what it staged; each decision between those acts is made here.

pub mod host_port;

use vstd::prelude::*;

use crate::capability::{
    no_estimate, NetworkPolicy, NetworkPolicyView, ResourceEstimate, ResourceEstimateView,
    RuntimeCredentialInjection, RuntimeCredentialInjectionView, RuntimeCredentialSource,
    RuntimeCredentialSourceView, RuntimeCredentialTarget, RuntimeCredentialTargetView, RuntimeKind,
    TrustClass,
};
use crate::context::{ExecutionContext, ExecutionContextView};
use crate::grant::{CapabilityGrant, MountGrant, MountView, MountViewView};
use crate::ids::{CapabilityId, ExtensionId, SecretHandle};
use crate::outcome::outcome;
use crate::scope::{ResourceScope, ResourceScopeView};
use crate::text::joined;

verus! {

/// Why an HTTP request failed.
#[derive(Debug, PartialEq, Eq)]
pub enum RuntimeHttpEgressError {
    /// A credential was refused, or could not be had.
    Credential { reason: String },
    /// The request was refused before it left.
    Request { reason: String, request_bytes: u64, response_bytes: u64 },
    /// The network failed.
    Network { reason: String, request_bytes: u64, response_bytes: u64 },
}

/// The mathematical value of a [`RuntimeHttpEgressError`].
#[verifier::ext_equal]
pub enum RuntimeHttpEgressErrorView {
    Credential { reason: Seq<char> },
    Request { reason: Seq<char>, request_bytes: u64, response_bytes: u64 },
    Network { reason: Seq<char>, request_bytes: u64, response_bytes: u64 },
}

impl View for RuntimeHttpEgressError {
    type V = RuntimeHttpEgressErrorView;

    open spec fn view(&self) -> RuntimeHttpEgressErrorView {
        match self {
            RuntimeHttpEgressError::Credential { reason } => RuntimeHttpEgressErrorView::Credential {
                reason: reason@,
            },
            RuntimeHttpEgressError::Request { reason, request_bytes, response_bytes } => RuntimeHttpEgressErrorView::Request {
                reason: reason@,
                request_bytes: *request_bytes,
                response_bytes: *response_bytes,
            },
            RuntimeHttpEgressError::Network { reason, request_bytes, response_bytes } => RuntimeHttpEgressErrorView::Network {
                reason: reason@,
                request_bytes: *request_bytes,
                response_bytes: *response_bytes,
            },
        }
    }
}

impl DeepView for RuntimeHttpEgressError {
    type V = RuntimeHttpEgressErrorView;

    open spec fn deep_view(&self) -> RuntimeHttpEgressErrorView {
        self@
    }
}

impl Clone for RuntimeHttpEgressError {
    fn clone(&self) -> (r: Self)
        ensures
            r@ == self@,
    {
        match self {
            RuntimeHttpEgressError::Credential { reason } => RuntimeHttpEgressError::Credential {
                reason: reason.clone(),
            },
            RuntimeHttpEgressError::Request { reason, request_bytes, response_bytes } => RuntimeHttpEgressError::Request {
                reason: reason.clone(),
                request_bytes: *request_bytes,
                response_bytes: *response_bytes,
            },
            RuntimeHttpEgressError::Network { reason, request_bytes, response_bytes } => RuntimeHttpEgressError::Network {
                reason: reason.clone(),
                request_bytes: *request_bytes,
                response_bytes: *response_bytes,
            },
        }
    }
}

/// A header of a request.
#[derive(Debug, PartialEq, Eq)]
pub struct HttpHeader {
    pub name: String,
    pub value: String,
}

/// The mathematical value of a [`HttpHeader`].
#[verifier::ext_equal]
pub struct HttpHeaderView {
    pub name: Seq<char>,
    pub value: Seq<char>,
}

impl View for HttpHeader {
    type V = HttpHeaderView;

    open spec fn view(&self) -> HttpHeaderView {
        HttpHeaderView {
            name: self.name@,
            value: self.value@,
        }
    }
}

impl DeepView for HttpHeader {
    type V = HttpHeaderView;

    open spec fn deep_view(&self) -> HttpHeaderView {
        self@
    }
}

impl Clone for HttpHeader {
    fn clone(&self) -> (r: Self)
        ensures
            r@ == self@,
    {
        HttpHeader {
            name: self.name.clone(),
            value: self.value.clone(),
        }
    }
}

/// An outgoing HTTP request.
#[derive(Debug, PartialEq, Eq)]
pub struct RuntimeHttpEgressRequest {
    pub runtime: RuntimeKind,
    pub scope: ResourceScope,
    pub capability_id: CapabilityId,
    pub method: String,
    pub url: String,
    pub headers: Vec<HttpHeader>,
    pub body: Vec<u8>,
    pub network_policy: NetworkPolicy,
    pub credential_injections: Vec<RuntimeCredentialInjection>,
    pub response_body_limit: Option<u64>,
    pub timeout_ms: Option<u32>,
}

/// The mathematical value of a [`RuntimeHttpEgressRequest`].
#[verifier::ext_equal]
pub struct RuntimeHttpEgressRequestView {
    pub runtime: RuntimeKind,
    pub scope: ResourceScopeView,
    pub capability_id: Seq<char>,
    pub method: Seq<char>,
    pub url: Seq<char>,
    pub headers: Seq<HttpHeaderView>,
    pub body: Seq<u8>,
    pub network_policy: NetworkPolicyView,
    pub credential_injections: Seq<RuntimeCredentialInjectionView>,
    pub response_body_limit: Option<u64>,
    pub timeout_ms: Option<u32>,
}

impl View for RuntimeHttpEgressRequest {
    type V = RuntimeHttpEgressRequestView;

    open spec fn view(&self) -> RuntimeHttpEgressRequestView {
        RuntimeHttpEgressRequestView {
            runtime: self.runtime,
            scope: self.scope@,
            capability_id: self.capability_id@,
            method: self.method@,
            url: self.url@,
            headers: self.headers.deep_view(),
            body: self.body@,
            network_policy: self.network_policy@,
            credential_injections: self.credential_injections.deep_view(),
            response_body_limit: self.response_body_limit,
            timeout_ms: self.timeout_ms,
        }
    }
}

impl DeepView for RuntimeHttpEgressRequest {
    type V = RuntimeHttpEgressRequestView;

    open spec fn deep_view(&self) -> RuntimeHttpEgressRequestView {
        self@
    }
}

impl Clone for RuntimeHttpEgressRequest {
    fn clone(&self) -> (r: Self)
        ensures
            r@ == self@,
    {
        let r = RuntimeHttpEgressRequest {
            runtime: self.runtime,
            scope: self.scope.clone(),
            capability_id: self.capability_id.clone(),
            method: self.method.clone(),
            url: self.url.clone(),
            headers: self.headers.clone(),
            body: self.body.clone(),
            network_policy: self.network_policy.clone(),
            credential_injections: self.credential_injections.clone(),
            response_body_limit: self.response_body_limit,
            timeout_ms: self.timeout_ms,
        };
        assert(r.headers.deep_view() =~= self.headers.deep_view());
        assert(r.body@ =~= self.body@);
        assert(r.credential_injections.deep_view() =~= self.credential_injections.deep_view());
        r
    }
}

/// A credential that the host holds and a request needs. The secret itself stays
/// with the host.
#[derive(Debug, PartialEq, Eq)]
pub struct HostRuntimeCredentialMaterial {
    pub handle: SecretHandle,
    pub target: RuntimeCredentialTarget,
    pub required: bool,
}

/// The mathematical value of a [`HostRuntimeCredentialMaterial`].
#[verifier::ext_equal]
pub struct HostRuntimeCredentialMaterialView {
    pub handle: Seq<char>,
    pub target: RuntimeCredentialTargetView,
    pub required: bool,
}

impl View for HostRuntimeCredentialMaterial {
    type V = HostRuntimeCredentialMaterialView;

    open spec fn view(&self) -> HostRuntimeCredentialMaterialView {
        HostRuntimeCredentialMaterialView {
            handle: self.handle@,
            target: self.target@,
            required: self.required,
        }
    }
}

impl DeepView for HostRuntimeCredentialMaterial {
    type V = HostRuntimeCredentialMaterialView;

    open spec fn deep_view(&self) -> HostRuntimeCredentialMaterialView {
        self@
    }
}

impl Clone for HostRuntimeCredentialMaterial {
    fn clone(&self) -> (r: Self)
        ensures
            r@ == self@,
    {
        HostRuntimeCredentialMaterial {
            handle: self.handle.clone(),
            target: self.target.clone(),
            required: self.required,
        }
    }
}

/// A request that the host makes for an extension.
#[derive(Debug, PartialEq, Eq)]
pub struct HostRuntimeHttpEgressRequest {
    pub extension_id: ExtensionId,
    pub trust: TrustClass,
    pub request: RuntimeHttpEgressRequest,
    pub credentials: Vec<HostRuntimeCredentialMaterial>,
}

/// The mathematical value of a [`HostRuntimeHttpEgressRequest`].
#[verifier::ext_equal]
pub struct HostRuntimeHttpEgressRequestView {
    pub extension_id: Seq<char>,
    pub trust: TrustClass,
    pub request: RuntimeHttpEgressRequestView,
    pub credentials: Seq<HostRuntimeCredentialMaterialView>,
}

impl View for HostRuntimeHttpEgressRequest {
    type V = HostRuntimeHttpEgressRequestView;

    open spec fn view(&self) -> HostRuntimeHttpEgressRequestView {
        HostRuntimeHttpEgressRequestView {
            extension_id: self.extension_id@,
            trust: self.trust,
            request: self.request@,
            credentials: self.credentials.deep_view(),
        }
    }
}

impl DeepView for HostRuntimeHttpEgressRequest {
    type V = HostRuntimeHttpEgressRequestView;

    open spec fn deep_view(&self) -> HostRuntimeHttpEgressRequestView {
        self@
    }
}

impl Clone for HostRuntimeHttpEgressRequest {
    fn clone(&self) -> (r: Self)
        ensures
            r@ == self@,
    {
        let r = HostRuntimeHttpEgressRequest {
            extension_id: self.extension_id.clone(),
            trust: self.trust,
            request: self.request.clone(),
            credentials: self.credentials.clone(),
        };
        assert(r.credentials.deep_view() =~= self.credentials.deep_view());
        r
    }
}

/// What the host owes before a request may leave.
#[derive(Debug, PartialEq, Eq)]
pub enum Obligation {
    /// Enforce this policy.
    ApplyNetworkPolicy { policy: NetworkPolicy },
    /// Lease this secret for one use.
    InjectSecretOnce { handle: SecretHandle },
}

/// The mathematical value of a [`Obligation`].
#[verifier::ext_equal]
pub enum ObligationView {
    ApplyNetworkPolicy { policy: NetworkPolicyView },
    InjectSecretOnce { handle: Seq<char> },
}

impl View for Obligation {
    type V = ObligationView;

    open spec fn view(&self) -> ObligationView {
        match self {
            Obligation::ApplyNetworkPolicy { policy } => ObligationView::ApplyNetworkPolicy {
                policy: policy@,
            },
            Obligation::InjectSecretOnce { handle } => ObligationView::InjectSecretOnce {
                handle: handle@,
            },
        }
    }
}

impl DeepView for Obligation {
    type V = ObligationView;

    open spec fn deep_view(&self) -> ObligationView {
        self@
    }
}

impl Clone for Obligation {
    fn clone(&self) -> (r: Self)
        ensures
            r@ == self@,
    {
        match self {
            Obligation::ApplyNetworkPolicy { policy } => Obligation::ApplyNetworkPolicy {
                policy: policy.clone(),
            },
            Obligation::InjectSecretOnce { handle } => Obligation::InjectSecretOnce {
                handle: handle.clone(),
            },
        }
    }
}

/// When in a capability call the obligation handler is asked.
#[derive(Debug, Clone, Copy, PartialEq, Eq, Structural)]
pub enum CapabilityObligationPhase {
    /// Before the capability is invoked.
    Invoke,
}

/// What the obligation handler is asked to satisfy.
#[derive(Debug, PartialEq, Eq)]
pub struct ObligationRequest {
    pub phase: CapabilityObligationPhase,
    pub context: ExecutionContext,
    pub capability_id: CapabilityId,
    pub estimate: ResourceEstimate,
    pub obligations: Vec<Obligation>,
}

/// The mathematical value of a [`ObligationRequest`].
#[verifier::ext_equal]
pub struct ObligationRequestView {
    pub phase: CapabilityObligationPhase,
    pub context: ExecutionContextView,
    pub capability_id: Seq<char>,
    pub estimate: ResourceEstimateView,
    pub obligations: Seq<ObligationView>,
}

impl View for ObligationRequest {
    type V = ObligationRequestView;

    open spec fn view(&self) -> ObligationRequestView {
        ObligationRequestView {
            phase: self.phase,
            context: self.context@,
            capability_id: self.capability_id@,
            estimate: self.estimate@,
            obligations: self.obligations.deep_view(),
        }
    }
}

impl DeepView for ObligationRequest {
    type V = ObligationRequestView;

    open spec fn deep_view(&self) -> ObligationRequestView {
        self@
    }
}

impl Clone for ObligationRequest {
    fn clone(&self) -> (r: Self)
        ensures
            r@ == self@,
    {
        let r = ObligationRequest {
            phase: self.phase,
            context: self.context.clone(),
            capability_id: self.capability_id.clone(),
            estimate: self.estimate.clone(),
            obligations: self.obligations.clone(),
        };
        assert(r.obligations.deep_view() =~= self.obligations.deep_view());
        r
    }
}

/// Why a secret could not be staged.
#[derive(Debug, Clone, Copy, PartialEq, Eq, Structural)]
pub enum RuntimeSecretStageError {
    /// The store refused it.
    Backend,
}

/// A secret staged for one capability call.
#[derive(Debug, PartialEq, Eq)]
pub struct StagedSecret {
    pub scope: ResourceScope,
    pub capability_id: CapabilityId,
    pub handle: SecretHandle,
}

/// The mathematical value of a [`StagedSecret`].
#[verifier::ext_equal]
pub struct StagedSecretView {
    pub scope: ResourceScopeView,
    pub capability_id: Seq<char>,
    pub handle: Seq<char>,
}

impl View for StagedSecret {
    type V = StagedSecretView;

    open spec fn view(&self) -> StagedSecretView {
        StagedSecretView {
            scope: self.scope@,
            capability_id: self.capability_id@,
            handle: self.handle@,
        }
    }
}

impl DeepView for StagedSecret {
    type V = StagedSecretView;

    open spec fn deep_view(&self) -> StagedSecretView {
        self@
    }
}

impl Clone for StagedSecret {
    fn clone(&self) -> (r: Self)
        ensures
            r@ == self@,
    {
        StagedSecret {
            scope: self.scope.clone(),
            capability_id: self.capability_id.clone(),
            handle: self.handle.clone(),
        }
    }
}

/// The context of a host-initiated request: the identity of its scope, with no
/// grants and no mounts.
pub open spec fn host_context(
    scope: ResourceScopeView,
    extension_id: Seq<char>,
    runtime: RuntimeKind,
    trust: TrustClass,
    correlation_id: u128,
) -> ExecutionContextView {
    ExecutionContextView {
        invocation_id: scope.invocation_id,
        correlation_id,
        process_id: None,
        parent_process_id: None,
        tenant_id: scope.tenant_id,
        user_id: scope.user_id,
        agent_id: scope.agent_id,
        project_id: scope.project_id,
        mission_id: scope.mission_id,
        thread_id: scope.thread_id,
        extension_id,
        runtime,
        trust,
        grants: Seq::empty(),
        mounts: MountViewView { mounts: Seq::empty() },
        resource_scope: scope,
    }
}

/// The context of a host-initiated request.
pub fn execution_context_for_host_http_egress(
    scope: &ResourceScope,
    extension_id: ExtensionId,
    runtime: RuntimeKind,
    trust: TrustClass,
    correlation_id: u128,
) -> (r: ExecutionContext)
    ensures
        r@ == host_context(scope@, extension_id@, runtime, trust, correlation_id),
{
    let grants: Vec<CapabilityGrant> = Vec::new();
    let mounts: Vec<MountGrant> = Vec::new();
    let context = ExecutionContext {
        invocation_id: scope.invocation_id,
        correlation_id,
        process_id: None,
        parent_process_id: None,
        tenant_id: scope.tenant_id.clone(),
        user_id: scope.user_id.clone(),
        agent_id: scope.agent_id.clone(),
        project_id: scope.project_id.clone(),
        mission_id: scope.mission_id.clone(),
        thread_id: scope.thread_id.clone(),
        extension_id,
        runtime,
        trust,
        grants,
        mounts: MountView { mounts },
        resource_scope: scope.clone(),
    };
    assert(context@.grants =~= Seq::empty());
    assert(context@.mounts.mounts =~= Seq::empty());
    assert(context@.agent_id =~= scope@.agent_id);
    assert(context@.project_id =~= scope@.project_id);
    assert(context@.mission_id =~= scope@.mission_id);
    assert(context@.thread_id =~= scope@.thread_id);
    context
}

/// The obligations of a policy and some secrets: the policy first, then one
/// lease for each secret.
pub open spec fn obligations_of(policy: NetworkPolicyView, handles: Seq<Seq<char>>) -> Seq<
    ObligationView,
> {
    seq![ObligationView::ApplyNetworkPolicy { policy }] + handles.map_values(
        |handle: Seq<char>| ObligationView::InjectSecretOnce { handle },
    )
}

/// Who a host-initiated request is sent for: the identity and scope that its
/// obligations are staged under.
#[derive(Debug)]
pub struct HostInitiatedInvokeContext<'a> {
    pub extension_id: ExtensionId,
    pub trust: TrustClass,
    pub runtime: RuntimeKind,
    pub scope: &'a ResourceScope,
    pub capability_id: &'a CapabilityId,
}

/// The mathematical value of a [`HostInitiatedInvokeContext`].
#[verifier::ext_equal]
pub struct HostInitiatedInvokeContextView {
    pub extension_id: Seq<char>,
    pub trust: TrustClass,
    pub runtime: RuntimeKind,
    pub scope: ResourceScopeView,
    pub capability_id: Seq<char>,
}

impl<'a> View for HostInitiatedInvokeContext<'a> {
    type V = HostInitiatedInvokeContextView;

    open spec fn view(&self) -> HostInitiatedInvokeContextView {
        HostInitiatedInvokeContextView {
            extension_id: self.extension_id@,
            trust: self.trust,
            runtime: self.runtime,
            scope: self.scope@,
            capability_id: self.capability_id@,
        }
    }
}

/// Who a request is sent for, when an extension sends it.
pub open spec fn invoke_context_of(
    request: RuntimeHttpEgressRequestView,
    extension_id: Seq<char>,
    trust: TrustClass,
) -> HostInitiatedInvokeContextView {
    HostInitiatedInvokeContextView {
        extension_id,
        trust,
        runtime: request.runtime,
        scope: request.scope,
        capability_id: request.capability_id,
    }
}

/// What the obligation handler is asked for the phase of invocation, with the
/// bytes a call may send as the only estimate.
pub open spec fn invoke_request_of(
    context: HostInitiatedInvokeContextView,
    network_egress_bytes: Option<u64>,
    obligations: Seq<ObligationView>,
    correlation_id: u128,
) -> ObligationRequestView {
    ObligationRequestView {
        phase: CapabilityObligationPhase::Invoke,
        context: host_context(
            context.scope,
            context.extension_id,
            context.runtime,
            context.trust,
            correlation_id,
        ),
        capability_id: context.capability_id,
        estimate: ResourceEstimateView { network_egress_bytes, ..no_estimate() },
        obligations,
    }
}

/// What the obligation handler is asked for a network policy and some secrets.
pub open spec fn obligation_request_of(
    context: HostInitiatedInvokeContextView,
    policy: NetworkPolicyView,
    handles: Seq<Seq<char>>,
    correlation_id: u128,
) -> ObligationRequestView {
    invoke_request_of(
        context,
        policy.max_egress_bytes,
        obligations_of(policy, handles),
        correlation_id,
    )
}

/// The verdict of the obligation handler on a request. `context_check` is the
/// host's verdict on the execution context, which comes first.
pub open spec fn authorization_of(
    context_check: Result<(), Seq<char>>,
    satisfied: Result<(), Seq<char>>,
) -> Result<(), RuntimeHttpEgressErrorView> {
    match context_check {
        Err(error) => Err(
            RuntimeHttpEgressErrorView::Credential {
                reason: "invalid host HTTP egress context: "@ + error,
            },
        ),
        Ok(()) => match satisfied {
            Err(error) => Err(
                RuntimeHttpEgressErrorView::Request {
                    reason: "host egress obligations were not authorized: "@ + error,
                    request_bytes: 0,
                    response_bytes: 0,
                },
            ),
            Ok(()) => Ok(()),
        },
    }
}

/// The verdict of the obligation handler on a request.
pub fn obligation_verdict(context_check: Result<(), String>, satisfied: Result<(), String>) -> (r:
    Result<(), RuntimeHttpEgressError>)
    ensures
        outcome(r) == authorization_of(outcome(context_check), outcome(satisfied)),
{
    match context_check {
        Err(error) => {
            return Err(
                RuntimeHttpEgressError::Credential {
                    reason: joined("invalid host HTTP egress context: ", error.as_str()),
                },
            );
        },
        Ok(()) => {},
    }
    match satisfied {
        Err(error) => Err(
            RuntimeHttpEgressError::Request {
                reason: joined("host egress obligations were not authorized: ", error.as_str()),
                request_bytes: 0,
                response_bytes: 0,
            },
        ),
        Ok(()) => Ok(()),
    }
}

/// The handles whose material a host-initiated request needs: those of its
/// staged injections for its own capability, each once, in order.
pub open spec fn needed_handles(
    injections: Seq<RuntimeCredentialInjectionView>,
    capability_id: Seq<char>,
) -> Seq<Seq<char>>
    decreases injections.len(),
{
    if injections.len() == 0 {
        Seq::empty()
    } else {
        let before = needed_handles(injections.drop_last(), capability_id);
        let last = injections.last();
        if last.source == (RuntimeCredentialSourceView::StagedObligation { capability_id })
            && !before.contains(last.handle) {
            before.push(last.handle)
        } else {
            before
        }
    }
}

fn holds(handles: &Vec<SecretHandle>, handle: &SecretHandle) -> (r: bool)
    ensures
        r == handles.deep_view().contains(handle@),
{
    let mut i: usize = 0;
    while i < handles.len()
        invariant
            i <= handles@.len(),
            forall|k: int| 0 <= k < i ==> (#[trigger] handles.deep_view()[k]) != handle@,
        decreases handles@.len() - i,
    {
        assert(handles.deep_view()[i as int] == handles@[i as int]@);
        if handles[i] == *handle {
            return true;
        }
        i = i + 1;
    }
    false
}

/// The handles whose material a host-initiated request needs.
pub fn staged_secret_handles(request: &RuntimeHttpEgressRequest) -> (r: Vec<SecretHandle>)
    ensures
        r.deep_view() == needed_handles(request@.credential_injections, request@.capability_id),
{
    let mut out: Vec<SecretHandle> = Vec::new();
    let injections = &request.credential_injections;
    let ghost views = injections.deep_view();
    let ghost capability = request@.capability_id;
    let mut i: usize = 0;
    assert(out.deep_view() =~= needed_handles(views.take(0), capability));
    while i < injections.len()
        invariant
            views == injections.deep_view(),
            capability == request.capability_id@,
            i <= injections@.len(),
            out.deep_view() == needed_handles(views.take(i as int), capability),
        decreases injections@.len() - i,
    {
        let injection = &injections[i];
        let ghost before = out.deep_view();
        proof {
            assert(views.take(i + 1).drop_last() =~= views.take(i as int));
            assert(views.take(i + 1).last() == injection@);
        }
        let staged = match &injection.source {
            RuntimeCredentialSource::StagedObligation { capability_id } => *capability_id
                == request.capability_id,
            _ => false,
        };
        if staged && !holds(&out, &injection.handle) {
            let handle = injection.handle.clone();
            let ghost added = handle@;
            out.push(handle);
            assert(out.deep_view() =~= before.push(added));
        }
        i = i + 1;
    }
    assert(views.take(views.len() as int) =~= views);
    out
}

/// The handles are distinct, and they are exactly those of the staged
/// injections for the request's own capability.
pub proof fn law_needed_handles_are_distinct_and_complete(
    injections: Seq<RuntimeCredentialInjectionView>,
    capability_id: Seq<char>,
)
    ensures
        needed_handles(injections, capability_id).no_duplicates(),
        forall|handle: Seq<char>|
            #![trigger needed_handles(injections, capability_id).contains(handle)]
            needed_handles(injections, capability_id).contains(handle) <==> exists|k: int|
                0 <= k < injections.len() && (#[trigger] injections[k]).handle == handle
                    && injections[k].source == (RuntimeCredentialSourceView::StagedObligation {
                    capability_id,
                }),
    decreases injections.len(),
{
    if injections.len() > 0 {
        let rest = injections.drop_last();
        let last = injections.last();
        law_needed_handles_are_distinct_and_complete(rest, capability_id);
        let before = needed_handles(rest, capability_id);
        let after = needed_handles(injections, capability_id);
        let staged = RuntimeCredentialSourceView::StagedObligation { capability_id };
        assert forall|handle: Seq<char>| #[trigger]
            after.contains(handle) <==> exists|k: int|
            0 <= k < injections.len() && (#[trigger] injections[k]).handle == handle
                && injections[k].source == staged by {
            if after.contains(handle) {
                let i = choose|i: int| 0 <= i < after.len() && after[i] == handle;
                if i < before.len() {
                    assert(before[i] == handle);
                    assert(before.contains(handle));
                    let k = choose|k: int|
                        0 <= k < rest.len() && (#[trigger] rest[k]).handle == handle
                            && rest[k].source == staged;
                    assert(injections[k] == rest[k]);
                } else {
                    assert(injections[injections.len() - 1] == last);
                }
            }
            if exists|k: int|
                0 <= k < injections.len() && (#[trigger] injections[k]).handle == handle
                    && injections[k].source == staged {
                let k = choose|k: int|
                    0 <= k < injections.len() && (#[trigger] injections[k]).handle == handle
                        && injections[k].source == staged;
                if k < rest.len() {
                    assert(rest[k] == injections[k]);
                    assert(before.contains(handle));
                    let i = choose|i: int| 0 <= i < before.len() && before[i] == handle;
                    assert(after[i] == handle);
                } else if before.contains(handle) {
                    let i = choose|i: int| 0 <= i < before.len() && before[i] == handle;
                    assert(after[i] == handle);
                } else {
                    assert(after[before.len() as int] == handle);
                }
            }
        }
    } else {
        assert(needed_handles(injections, capability_id) =~= Seq::empty());
    }
}

/// The secrets staged right now.
#[derive(Debug)]
pub struct RuntimeSecretMaterialStager {
    staged: Vec<StagedSecret>,
}

impl View for RuntimeSecretMaterialStager {
    type V = Seq<StagedSecretView>;

    closed spec fn view(&self) -> Seq<StagedSecretView> {
        self.staged.deep_view()
    }
}

/// Whether a staged secret is for another scope or another capability.
pub open spec fn staged_elsewhere(
    scope: ResourceScopeView,
    capability_id: Seq<char>,
) -> spec_fn(StagedSecretView) -> bool {
    |secret: StagedSecretView| secret.scope != scope || secret.capability_id != capability_id
}

impl RuntimeSecretMaterialStager {
    /// A stager with nothing staged.
    pub fn new() -> (r: Self)
        ensures
            r@.len() == 0,
    {
        let staged: Vec<StagedSecret> = Vec::new();
        RuntimeSecretMaterialStager { staged }
    }

    /// Stages a secret. `stored` is the answer of the secret store; a secret it
    /// refused is not staged.
    pub fn stage_secret_material_once(
        &mut self,
        target_scope: &ResourceScope,
        capability_id: &CapabilityId,
        handle: &SecretHandle,
        stored: bool,
    ) -> (r: Result<(), RuntimeSecretStageError>)
        ensures
            r == (if stored {
                Ok::<(), RuntimeSecretStageError>(())
            } else {
                Err(RuntimeSecretStageError::Backend)
            }),
            final(self)@ == (if stored {
                old(self)@.push(
                    StagedSecretView {
                        scope: target_scope@,
                        capability_id: capability_id@,
                        handle: handle@,
                    },
                )
            } else {
                old(self)@
            }),
    {
        if !stored {
            return Err(RuntimeSecretStageError::Backend);
        }
        let secret = StagedSecret {
            scope: target_scope.clone(),
            capability_id: capability_id.clone(),
            handle: handle.clone(),
        };
        let ghost added = secret@;
        self.staged.push(secret);
        assert(self@ =~= old(self)@.push(added));
        Ok(())
    }

    /// Whether a secret is staged for a capability call.
    pub fn is_staged(
        &self,
        target_scope: &ResourceScope,
        capability_id: &CapabilityId,
        handle: &SecretHandle,
    ) -> (r: bool)
        ensures
            r == self@.contains(
                StagedSecretView {
                    scope: target_scope@,
                    capability_id: capability_id@,
                    handle: handle@,
                },
            ),
    {
        let ghost wanted = StagedSecretView {
            scope: target_scope@,
            capability_id: capability_id@,
            handle: handle@,
        };
        let mut i: usize = 0;
        while i < self.staged.len()
            invariant
                wanted == (StagedSecretView {
                    scope: target_scope@,
                    capability_id: capability_id@,
                    handle: handle@,
                }),
                i <= self.staged@.len(),
                forall|k: int| 0 <= k < i ==> (#[trigger] self@[k]) != wanted,
            decreases self.staged@.len() - i,
        {
            assert(self@[i as int] == self.staged@[i as int]@);
            let secret = &self.staged[i];
            if secret.scope.same_as(target_scope) && secret.capability_id == *capability_id
                && secret.handle == *handle {
                return true;
            }
            i = i + 1;
        }
        false
    }

    /// Discards what is staged for a capability call. `discarded` is the answer
    /// of the secret store; if it failed, everything stays.
    pub fn discard_secret_material_for_capability(
        &mut self,
        target_scope: &ResourceScope,
        capability_id: &CapabilityId,
        discarded: bool,
    )
        ensures
            final(self)@ == (if discarded {
                old(self)@.filter(staged_elsewhere(target_scope@, capability_id@))
            } else {
                old(self)@
            }),
    {
        if !discarded {
            return ;
        }
        let ghost keep = staged_elsewhere(target_scope@, capability_id@);
        let ghost views = self@;
        let mut kept: Vec<StagedSecret> = Vec::new();
        let mut i: usize = 0;
        proof {
            reveal(Seq::filter);
        }
        assert(kept.deep_view() =~= views.take(0).filter(keep));
        while i < self.staged.len()
            invariant
                views == self@,
                keep == staged_elsewhere(target_scope@, capability_id@),
                i <= self.staged@.len(),
                kept.deep_view() == views.take(i as int).filter(keep),
            decreases self.staged@.len() - i,
        {
            let secret = &self.staged[i];
            let ghost before = kept.deep_view();
            proof {
                reveal(Seq::filter);
                assert(views.take(i + 1).drop_last() =~= views.take(i as int));
                assert(views.take(i + 1).last() == secret@);
            }
            if !secret.scope.same_as(target_scope) || secret.capability_id != *capability_id {
                let copy = secret.clone();
                let ghost added = copy@;
                kept.push(copy);
                assert(kept.deep_view() =~= before.push(added));
            }
            i = i + 1;
        }
        assert(views.take(views.len() as int) =~= views);
        self.staged = kept;
    }
}

/// What the obligation handler is asked is asked before the invocation, for the very
/// capability, in the identity of the request's own scope and the given extension, with
/// no grant and no mount. The network policy comes first, then one lease for each
/// handle, in order; the estimate names the bytes that the policy admits and nothing else.
pub proof fn law_obligations_are_asked_in_the_identity_of_the_request(
    context: HostInitiatedInvokeContextView,
    policy: NetworkPolicyView,
    handles: Seq<Seq<char>>,
    correlation_id: u128,
)
    ensures
        ({
            let asked = obligation_request_of(context, policy, handles, correlation_id);
            &&& asked.phase == CapabilityObligationPhase::Invoke
            &&& asked.capability_id == context.capability_id
            &&& asked.estimate.network_egress_bytes == policy.max_egress_bytes
            &&& asked.estimate.limits.len() == 0
            &&& asked.obligations.len() == handles.len() + 1
            &&& asked.obligations[0] == (ObligationView::ApplyNetworkPolicy { policy })
            &&& forall|k: int|
                0 <= k < handles.len() ==> asked.obligations[k + 1] == (
                ObligationView::InjectSecretOnce { handle: #[trigger] handles[k] })
            &&& asked.context.correlation_id == correlation_id
            &&& asked.context.extension_id == context.extension_id
            &&& asked.context.runtime == context.runtime
            &&& asked.context.trust == context.trust
            &&& asked.context.resource_scope == context.scope
            &&& asked.context.invocation_id == context.scope.invocation_id
            &&& asked.context.tenant_id == context.scope.tenant_id
            &&& asked.context.user_id == context.scope.user_id
            &&& asked.context.agent_id == context.scope.agent_id
            &&& asked.context.project_id == context.scope.project_id
            &&& asked.context.mission_id == context.scope.mission_id
            &&& asked.context.thread_id == context.scope.thread_id
            &&& asked.context.process_id is None
            &&& asked.context.parent_process_id is None
            &&& asked.context.grants.len() == 0
            &&& asked.context.mounts.mounts.len() == 0
        }),
{
}

/// A request is sent for its own capability, scope and runtime, in the name of the
/// given extension and trust.
pub proof fn law_invocation_is_of_the_request(
    request: RuntimeHttpEgressRequestView,
    extension_id: Seq<char>,
    trust: TrustClass,
)
    ensures
        invoke_context_of(request, extension_id, trust).extension_id == extension_id,
        invoke_context_of(request, extension_id, trust).trust == trust,
        invoke_context_of(request, extension_id, trust).runtime == request.runtime,
        invoke_context_of(request, extension_id, trust).scope == request.scope,
        invoke_context_of(request, extension_id, trust).capability_id == request.capability_id,
{
}

/// A request is authorized exactly if its context is valid and its obligations are
/// satisfied. An invalid context comes first; the error holds the reason, and says of
/// refused obligations that nothing was sent and nothing received.
pub proof fn law_authorization_needs_context_and_obligations(
    context_check: Result<(), Seq<char>>,
    satisfied: Result<(), Seq<char>>,
)
    ensures
        authorization_of(context_check, satisfied) is Ok <==> context_check is Ok && satisfied is Ok,
        context_check is Err ==> authorization_of(context_check, satisfied) == Err::<
            (),
            RuntimeHttpEgressErrorView,
        >(
            RuntimeHttpEgressErrorView::Credential {
                reason: "invalid host HTTP egress context: "@ + context_check->Err_0,
            },
        ),
        context_check is Ok && satisfied is Err ==> authorization_of(context_check, satisfied)
            == Err::<(), RuntimeHttpEgressErrorView>(
            RuntimeHttpEgressErrorView::Request {
                reason: "host egress obligations were not authorized: "@ + satisfied->Err_0,
                request_bytes: 0,
                response_bytes: 0,
            },
        ),
{
}

/// One more injection adds its handle at the end if it is staged for the capability and
/// its handle is not needed already, and changes nothing else.
pub proof fn law_each_injection_adds_its_handle_once(
    injections: Seq<RuntimeCredentialInjectionView>,
    injection: RuntimeCredentialInjectionView,
    capability_id: Seq<char>,
)
    ensures
        needed_handles(Seq::empty(), capability_id).len() == 0,
        ({
            let before = needed_handles(injections, capability_id);
            let staged = injection.source == (RuntimeCredentialSourceView::StagedObligation {
                capability_id,
            });
            let after = needed_handles(injections.push(injection), capability_id);
            if staged && !before.contains(injection.handle) {
                after == before.push(injection.handle)
            } else {
                after == before
            }
        }),
{
    assert(injections.push(injection).drop_last() =~= injections);
}

} // verus!
