//! What the version of a surface is computed from.
//!
//! The host turns a [`SurfaceVersionPayload`] into canonical JSON and digests it.

use vstd::prelude::*;

use crate::capability::{
    CapabilityDescriptor, CapabilityDescriptorView, EffectKind, ResourceCeiling,
    ResourceCeilingView, ResourceEstimate, ResourceEstimateView, RuntimeKind, TrustClass,
};
use crate::context::{provider_trust, trust_in, TrustDecision, TrustDecisionView};
use crate::grant::{CapabilityGrant, CapabilityGrantView, Principal, PrincipalView};
use crate::ids::{
    AgentId, CapabilityId, ExtensionId, MissionId, ProjectId, TenantId, ThreadId, UserId,
};
use crate::json::{edged_by_space, write_json_text, written_json};
use crate::order::{
    items_of, key_before, keyed_view, law_sorted_entries_are_the_entries_in_order,
    law_sorting_ignores_order, lemma_selected_permutation, sorted_items, stably_sorted, Keyed,
};
use crate::outcome::outcome;
use crate::surface::evaluate::{CapabilityCatalog, CapabilityCatalogView};
use crate::surface::{
    access_text, access_token, HostRuntimeError, HostRuntimeErrorView, VisibleCapability,
    VisibleCapabilityAccess, VisibleCapabilityRequest, VisibleCapabilityRequestView,
    VisibleCapabilityView,
};
use crate::text::{lemma_text_before_irreflexive, text_before};
use crate::token::{
    canonical, canonical_effect_kinds, canonical_list, canonical_runtime_kinds, effect_token,
    law_canonical_effects_are_the_given_ones, law_canonical_is_ascending_and_complete,
    law_canonical_runtimes_are_the_given_ones, runtime_kind_token, runtime_token, tokens_of, Token,
};

verus! {

/// What the version takes from one grant.
#[derive(Debug, PartialEq, Eq)]
pub struct GrantVersionPayload {
    pub capability: CapabilityId,
    pub grantee: Principal,
    pub allowed_effects: Vec<String>,
    pub resource_ceiling: Option<ResourceCeiling>,
    pub expires_at: Option<i128>,
    pub max_invocations: Option<u64>,
    pub secret_count: usize,
}

/// The mathematical value of a [`GrantVersionPayload`].
#[verifier::ext_equal]
pub struct GrantVersionPayloadView {
    pub capability: Seq<char>,
    pub grantee: PrincipalView,
    pub allowed_effects: Seq<Seq<char>>,
    pub resource_ceiling: Option<ResourceCeilingView>,
    pub expires_at: Option<i128>,
    pub max_invocations: Option<u64>,
    pub secret_count: usize,
}

impl View for GrantVersionPayload {
    type V = GrantVersionPayloadView;

    open spec fn view(&self) -> GrantVersionPayloadView {
        GrantVersionPayloadView {
            capability: self.capability@,
            grantee: self.grantee@,
            allowed_effects: self.allowed_effects.deep_view(),
            resource_ceiling: self.resource_ceiling.deep_view(),
            expires_at: self.expires_at,
            max_invocations: self.max_invocations,
            secret_count: self.secret_count,
        }
    }
}

impl DeepView for GrantVersionPayload {
    type V = GrantVersionPayloadView;

    open spec fn deep_view(&self) -> GrantVersionPayloadView {
        self@
    }
}

impl Clone for GrantVersionPayload {
    fn clone(&self) -> (r: Self)
        ensures
            r@ == self@,
    {
        let r = GrantVersionPayload {
            capability: self.capability.clone(),
            grantee: self.grantee.clone(),
            allowed_effects: self.allowed_effects.clone(),
            resource_ceiling: self.resource_ceiling.clone(),
            expires_at: self.expires_at,
            max_invocations: self.max_invocations,
            secret_count: self.secret_count,
        };
        assert(r.allowed_effects.deep_view() =~= self.allowed_effects.deep_view());
        assert(r.resource_ceiling.deep_view() =~= self.resource_ceiling.deep_view());
        r
    }
}

/// What the version takes from the execution context.
#[derive(Debug, PartialEq, Eq)]
pub struct ContextVersionPayload {
    pub tenant_id: TenantId,
    pub user_id: UserId,
    pub agent_id: Option<AgentId>,
    pub project_id: Option<ProjectId>,
    pub mission_id: Option<MissionId>,
    pub thread_id: Option<ThreadId>,
    pub extension_id: ExtensionId,
    pub runtime: RuntimeKind,
    /// Canonical JSON of each grant, in order of its stable text.
    pub grants: Vec<String>,
}

/// The mathematical value of a [`ContextVersionPayload`].
#[verifier::ext_equal]
pub struct ContextVersionPayloadView {
    pub tenant_id: Seq<char>,
    pub user_id: Seq<char>,
    pub agent_id: Option<Seq<char>>,
    pub project_id: Option<Seq<char>>,
    pub mission_id: Option<Seq<char>>,
    pub thread_id: Option<Seq<char>>,
    pub extension_id: Seq<char>,
    pub runtime: RuntimeKind,
    pub grants: Seq<Seq<char>>,
}

impl View for ContextVersionPayload {
    type V = ContextVersionPayloadView;

    open spec fn view(&self) -> ContextVersionPayloadView {
        ContextVersionPayloadView {
            tenant_id: self.tenant_id@,
            user_id: self.user_id@,
            agent_id: self.agent_id.deep_view(),
            project_id: self.project_id.deep_view(),
            mission_id: self.mission_id.deep_view(),
            thread_id: self.thread_id.deep_view(),
            extension_id: self.extension_id@,
            runtime: self.runtime,
            grants: self.grants.deep_view(),
        }
    }
}

impl DeepView for ContextVersionPayload {
    type V = ContextVersionPayloadView;

    open spec fn deep_view(&self) -> ContextVersionPayloadView {
        self@
    }
}

impl Clone for ContextVersionPayload {
    fn clone(&self) -> (r: Self)
        ensures
            r@ == self@,
    {
        let r = ContextVersionPayload {
            tenant_id: self.tenant_id.clone(),
            user_id: self.user_id.clone(),
            agent_id: self.agent_id.clone(),
            project_id: self.project_id.clone(),
            mission_id: self.mission_id.clone(),
            thread_id: self.thread_id.clone(),
            extension_id: self.extension_id.clone(),
            runtime: self.runtime,
            grants: self.grants.clone(),
        };
        assert(r.agent_id.deep_view() =~= self.agent_id.deep_view());
        assert(r.project_id.deep_view() =~= self.project_id.deep_view());
        assert(r.mission_id.deep_view() =~= self.mission_id.deep_view());
        assert(r.thread_id.deep_view() =~= self.thread_id.deep_view());
        assert(r.grants.deep_view() =~= self.grants.deep_view());
        r
    }
}

/// What the version takes from a trust decision.
#[derive(Debug, PartialEq, Eq)]
pub struct TrustVersionPayload {
    pub effective_trust: TrustClass,
    pub allowed_effects: Vec<String>,
    pub max_resource_ceiling: Option<ResourceCeiling>,
}

/// The mathematical value of a [`TrustVersionPayload`].
#[verifier::ext_equal]
pub struct TrustVersionPayloadView {
    pub effective_trust: TrustClass,
    pub allowed_effects: Seq<Seq<char>>,
    pub max_resource_ceiling: Option<ResourceCeilingView>,
}

impl View for TrustVersionPayload {
    type V = TrustVersionPayloadView;

    open spec fn view(&self) -> TrustVersionPayloadView {
        TrustVersionPayloadView {
            effective_trust: self.effective_trust,
            allowed_effects: self.allowed_effects.deep_view(),
            max_resource_ceiling: self.max_resource_ceiling.deep_view(),
        }
    }
}

impl DeepView for TrustVersionPayload {
    type V = TrustVersionPayloadView;

    open spec fn deep_view(&self) -> TrustVersionPayloadView {
        self@
    }
}

impl Clone for TrustVersionPayload {
    fn clone(&self) -> (r: Self)
        ensures
            r@ == self@,
    {
        let r = TrustVersionPayload {
            effective_trust: self.effective_trust,
            allowed_effects: self.allowed_effects.clone(),
            max_resource_ceiling: self.max_resource_ceiling.clone(),
        };
        assert(r.allowed_effects.deep_view() =~= self.allowed_effects.deep_view());
        assert(r.max_resource_ceiling.deep_view() =~= self.max_resource_ceiling.deep_view());
        r
    }
}

/// What the version takes from one capability.
#[derive(Debug, PartialEq, Eq)]
pub struct CapabilityVersionPayload {
    pub descriptor: CapabilityDescriptor,
    pub estimated_resources: ResourceEstimate,
    pub access: String,
    pub provider_trust: Option<TrustVersionPayload>,
}

/// The mathematical value of a [`CapabilityVersionPayload`].
#[verifier::ext_equal]
pub struct CapabilityVersionPayloadView {
    pub descriptor: CapabilityDescriptorView,
    pub estimated_resources: ResourceEstimateView,
    pub access: Seq<char>,
    pub provider_trust: Option<TrustVersionPayloadView>,
}

impl View for CapabilityVersionPayload {
    type V = CapabilityVersionPayloadView;

    open spec fn view(&self) -> CapabilityVersionPayloadView {
        CapabilityVersionPayloadView {
            descriptor: self.descriptor@,
            estimated_resources: self.estimated_resources@,
            access: self.access@,
            provider_trust: self.provider_trust.deep_view(),
        }
    }
}

impl DeepView for CapabilityVersionPayload {
    type V = CapabilityVersionPayloadView;

    open spec fn deep_view(&self) -> CapabilityVersionPayloadView {
        self@
    }
}

impl Clone for CapabilityVersionPayload {
    fn clone(&self) -> (r: Self)
        ensures
            r@ == self@,
    {
        let r = CapabilityVersionPayload {
            descriptor: self.descriptor.clone(),
            estimated_resources: self.estimated_resources.clone(),
            access: self.access.clone(),
            provider_trust: self.provider_trust.clone(),
        };
        assert(r.provider_trust.deep_view() =~= self.provider_trust.deep_view());
        r
    }
}

/// What the version takes from the surface policy.
#[derive(Debug, PartialEq, Eq)]
pub struct PolicyVersionPayload {
    pub allowed_runtimes: Vec<String>,
    pub allowed_effects: Vec<String>,
    pub include_requires_approval: bool,
    pub max_capabilities: Option<usize>,
}

/// The mathematical value of a [`PolicyVersionPayload`].
#[verifier::ext_equal]
pub struct PolicyVersionPayloadView {
    pub allowed_runtimes: Seq<Seq<char>>,
    pub allowed_effects: Seq<Seq<char>>,
    pub include_requires_approval: bool,
    pub max_capabilities: Option<usize>,
}

impl View for PolicyVersionPayload {
    type V = PolicyVersionPayloadView;

    open spec fn view(&self) -> PolicyVersionPayloadView {
        PolicyVersionPayloadView {
            allowed_runtimes: self.allowed_runtimes.deep_view(),
            allowed_effects: self.allowed_effects.deep_view(),
            include_requires_approval: self.include_requires_approval,
            max_capabilities: self.max_capabilities,
        }
    }
}

impl DeepView for PolicyVersionPayload {
    type V = PolicyVersionPayloadView;

    open spec fn deep_view(&self) -> PolicyVersionPayloadView {
        self@
    }
}

impl Clone for PolicyVersionPayload {
    fn clone(&self) -> (r: Self)
        ensures
            r@ == self@,
    {
        let r = PolicyVersionPayload {
            allowed_runtimes: self.allowed_runtimes.clone(),
            allowed_effects: self.allowed_effects.clone(),
            include_requires_approval: self.include_requires_approval,
            max_capabilities: self.max_capabilities,
        };
        assert(r.allowed_runtimes.deep_view() =~= self.allowed_runtimes.deep_view());
        assert(r.allowed_effects.deep_view() =~= self.allowed_effects.deep_view());
        r
    }
}

/// What the version of a surface is computed from.
#[derive(Debug, PartialEq, Eq)]
pub struct SurfaceVersionPayload {
    /// Version of the payload's own format.
    pub version: u64,
    pub kind: String,
    pub base_version: String,
    pub surface_kind: String,
    pub context: ContextVersionPayload,
    pub policy: PolicyVersionPayload,
    /// Effective runtime policy, as JSON text.
    pub runtime_policy: String,
    pub capabilities: Vec<CapabilityVersionPayload>,
}

/// The mathematical value of a [`SurfaceVersionPayload`].
#[verifier::ext_equal]
pub struct SurfaceVersionPayloadView {
    pub version: u64,
    pub kind: Seq<char>,
    pub base_version: Seq<char>,
    pub surface_kind: Seq<char>,
    pub context: ContextVersionPayloadView,
    pub policy: PolicyVersionPayloadView,
    pub runtime_policy: Seq<char>,
    pub capabilities: Seq<CapabilityVersionPayloadView>,
}

impl View for SurfaceVersionPayload {
    type V = SurfaceVersionPayloadView;

    open spec fn view(&self) -> SurfaceVersionPayloadView {
        SurfaceVersionPayloadView {
            version: self.version,
            kind: self.kind@,
            base_version: self.base_version@,
            surface_kind: self.surface_kind@,
            context: self.context@,
            policy: self.policy@,
            runtime_policy: self.runtime_policy@,
            capabilities: self.capabilities.deep_view(),
        }
    }
}

impl DeepView for SurfaceVersionPayload {
    type V = SurfaceVersionPayloadView;

    open spec fn deep_view(&self) -> SurfaceVersionPayloadView {
        self@
    }
}

impl Clone for SurfaceVersionPayload {
    fn clone(&self) -> (r: Self)
        ensures
            r@ == self@,
    {
        let r = SurfaceVersionPayload {
            version: self.version,
            kind: self.kind.clone(),
            base_version: self.base_version.clone(),
            surface_kind: self.surface_kind.clone(),
            context: self.context.clone(),
            policy: self.policy.clone(),
            runtime_policy: self.runtime_policy.clone(),
            capabilities: self.capabilities.clone(),
        };
        assert(r.capabilities.deep_view() =~= self.capabilities.deep_view());
        r
    }
}

/// What the version takes from a grant: never its id, its mounts, its network
/// policy or the handles of its secrets.
pub open spec fn grant_payload(grant: CapabilityGrantView) -> GrantVersionPayloadView {
    GrantVersionPayloadView {
        capability: grant.capability,
        grantee: grant.grantee,
        allowed_effects: tokens_of(canonical(grant.constraints.allowed_effects)),
        resource_ceiling: grant.constraints.resource_ceiling,
        expires_at: grant.constraints.expires_at,
        max_invocations: grant.constraints.max_invocations,
        secret_count: grant.constraints.secrets.len() as usize,
    }
}

/// What the version takes from a trust decision.
pub open spec fn trust_payload(decision: TrustDecisionView) -> TrustVersionPayloadView {
    TrustVersionPayloadView {
        effective_trust: decision.effective_trust,
        allowed_effects: tokens_of(canonical(decision.authority_ceiling.allowed_effects)),
        max_resource_ceiling: decision.authority_ceiling.max_resource_ceiling,
    }
}

/// The descriptor with its effects in canonical order, each once.
pub open spec fn canonical_descriptor(descriptor: CapabilityDescriptorView) -> CapabilityDescriptorView {
    CapabilityDescriptorView { effects: canonical(descriptor.effects), ..descriptor }
}

/// The key a capability is ordered by: id, provider, runtime and access.
pub open spec fn version_key(capability: VisibleCapabilityView) -> Seq<Seq<char>> {
    seq![
        capability.descriptor.id,
        capability.descriptor.provider,
        runtime_token(capability.descriptor.runtime),
        access_text(capability.access),
    ]
}

/// What the version takes from a capability.
pub open spec fn capability_payload(
    request: VisibleCapabilityRequestView,
    capability: VisibleCapabilityView,
) -> CapabilityVersionPayloadView {
    CapabilityVersionPayloadView {
        descriptor: canonical_descriptor(capability.descriptor),
        estimated_resources: capability.estimated_resources,
        access: access_text(capability.access),
        provider_trust: match trust_in(request.provider_trust, capability.descriptor.provider) {
            Some(decision) => Some(trust_payload(decision)),
            None => None,
        },
    }
}

/// Whether a capability is not among the discovered ones.
pub open spec fn not_among(ids: Seq<Seq<char>>) -> spec_fn(VisibleCapabilityView) -> bool {
    |capability: VisibleCapabilityView| !ids.contains(capability.descriptor.id)
}

/// A capability's key and payload.
pub open spec fn keyed_payload(
    request: VisibleCapabilityRequestView,
) -> spec_fn(VisibleCapabilityView) -> (Seq<Seq<char>>, CapabilityVersionPayloadView) {
    |capability: VisibleCapabilityView|
        (version_key(capability), capability_payload(request, capability))
}

/// The payloads of the capabilities that were not discovered, in key order.
pub open spec fn capability_payloads(
    request: VisibleCapabilityRequestView,
    capabilities: Seq<VisibleCapabilityView>,
    overlay_ids: Seq<Seq<char>>,
) -> Seq<CapabilityVersionPayloadView> {
    items_of(
        stably_sorted(
            capabilities.filter(not_among(overlay_ids)).map_values(keyed_payload(request)),
        ),
    )
}

/// What the version takes from the execution context. `grants` are the canonical
/// grants of the context.
pub open spec fn context_payload(
    request: VisibleCapabilityRequestView,
    grants: Seq<Seq<char>>,
) -> ContextVersionPayloadView {
    ContextVersionPayloadView {
        tenant_id: request.context.tenant_id,
        user_id: request.context.user_id,
        agent_id: request.context.agent_id,
        project_id: request.context.project_id,
        mission_id: request.context.mission_id,
        thread_id: request.context.thread_id,
        extension_id: request.context.extension_id,
        runtime: request.context.runtime,
        grants,
    }
}

/// What the version of a surface is computed from. `grants` are the canonical
/// grants of the context.
pub open spec fn version_payload(
    catalog: CapabilityCatalogView,
    request: VisibleCapabilityRequestView,
    grants: Seq<Seq<char>>,
    capabilities: Seq<VisibleCapabilityView>,
    overlay_ids: Seq<Seq<char>>,
) -> SurfaceVersionPayloadView {
    SurfaceVersionPayloadView {
        version: 1,
        kind: "visible_capability_surface"@,
        base_version: catalog.base_version,
        surface_kind: request.surface_kind,
        context: context_payload(request, grants),
        policy: PolicyVersionPayloadView {
            allowed_runtimes: tokens_of(canonical(request.policy.allowed_runtimes)),
            allowed_effects: tokens_of(canonical(request.policy.allowed_effects)),
            include_requires_approval: request.policy.include_requires_approval,
            max_capabilities: request.policy.max_capabilities,
        },
        runtime_policy: catalog.runtime_policy,
        capabilities: capability_payloads(request, capabilities, overlay_ids),
    }
}

/// What the version of a surface is computed from, or the error of the first
/// grant that has no stable text. `canonical` is what the host made of the payload
/// of each grant of the request's context.
pub open spec fn versioned(
    catalog: CapabilityCatalogView,
    request: VisibleCapabilityRequestView,
    canonical: Seq<Result<Seq<char>, Seq<char>>>,
    capabilities: Seq<VisibleCapabilityView>,
    overlay_ids: Seq<Seq<char>>,
) -> Result<SurfaceVersionPayloadView, HostRuntimeErrorView> {
    match grants_in_order(canonical) {
        Ok(grants) => Ok(version_payload(catalog, request, grants, capabilities, overlay_ids)),
        Err(error) => Err(error),
    }
}

/// The strings that hold some static texts.
fn owned(texts: Vec<&'static str>) -> (r: Vec<String>)
    ensures
        r.deep_view() == texts.deep_view(),
{
    let mut out: Vec<String> = Vec::new();
    let mut i: usize = 0;
    while i < texts.len()
        invariant
            i <= texts@.len(),
            out.deep_view() == texts.deep_view().take(i as int),
        decreases texts@.len() - i,
    {
        let ghost before = out.deep_view();
        let text = texts[i].to_string();
        let ghost added = text@;
        out.push(text);
        assert(out.deep_view() =~= before.push(added));
        assert(before.push(added) =~= texts.deep_view().take(i + 1));
        i = i + 1;
    }
    assert(texts.deep_view().take(texts@.len() as int) =~= texts.deep_view());
    out
}

/// What the version takes from a grant.
pub fn grant_version_payload(grant: &CapabilityGrant) -> (r: GrantVersionPayload)
    ensures
        r@ == grant_payload(grant@),
{
    let r = GrantVersionPayload {
        capability: grant.capability.clone(),
        grantee: grant.grantee.clone(),
        allowed_effects: owned(canonical_effect_kinds(&grant.constraints.allowed_effects)),
        resource_ceiling: grant.constraints.resource_ceiling.clone(),
        expires_at: grant.constraints.expires_at,
        max_invocations: grant.constraints.max_invocations,
        secret_count: grant.constraints.secrets.len(),
    };
    assert(r@.resource_ceiling =~= grant@.constraints.resource_ceiling);
    r
}

/// What the version takes from a trust decision.
pub fn trust_decision_version_payload(decision: &TrustDecision) -> (r: TrustVersionPayload)
    ensures
        r@ == trust_payload(decision@),
{
    let r = TrustVersionPayload {
        effective_trust: decision.effective_trust,
        allowed_effects: owned(
            canonical_effect_kinds(&decision.authority_ceiling.allowed_effects),
        ),
        max_resource_ceiling: decision.authority_ceiling.max_resource_ceiling.clone(),
    };
    assert(r@.max_resource_ceiling =~= decision@.authority_ceiling.max_resource_ceiling);
    r
}

/// The descriptor with its effects in canonical order, each once.
pub fn canonical_descriptor_for_version(descriptor: &CapabilityDescriptor) -> (r:
    CapabilityDescriptor)
    ensures
        r@ == canonical_descriptor(descriptor@),
{
    let mut r = descriptor.clone();
    r.effects = canonical_list(&descriptor.effects);
    r
}

/// The key a capability is ordered by.
pub fn capability_version_key(capability: &VisibleCapability) -> (r: Vec<String>)
    ensures
        r.deep_view() == version_key(capability@),
{
    let mut key: Vec<String> = Vec::new();
    key.push(capability.descriptor.id.clone());
    key.push(capability.descriptor.provider.clone());
    key.push(runtime_kind_token(capability.descriptor.runtime).to_string());
    key.push(access_token(capability.access).to_string());
    assert(key.deep_view() =~= version_key(capability@));
    key
}

/// What the version takes from a capability.
pub fn capability_version_payload(
    request: &VisibleCapabilityRequest,
    capability: &VisibleCapability,
) -> (r: CapabilityVersionPayload)
    ensures
        r@ == capability_payload(request@, capability@),
{
    CapabilityVersionPayload {
        descriptor: canonical_descriptor_for_version(&capability.descriptor),
        estimated_resources: capability.estimated_resources.clone(),
        access: access_token(capability.access).to_string(),
        provider_trust: match provider_trust(
            &request.provider_trust,
            &capability.descriptor.provider,
        ) {
            Some(decision) => Some(trust_decision_version_payload(decision)),
            None => None,
        },
    }
}

/// Whether an id is in a list.
pub fn lists(ids: &Vec<CapabilityId>, id: &CapabilityId) -> (r: bool)
    ensures
        r == ids.deep_view().contains(id@),
{
    let mut i: usize = 0;
    while i < ids.len()
        invariant
            i <= ids@.len(),
            forall|k: int| 0 <= k < i ==> (#[trigger] ids.deep_view()[k]) != id@,
        decreases ids@.len() - i,
    {
        assert(ids.deep_view()[i as int] == ids@[i as int]@);
        if ids[i] == *id {
            return true;
        }
        i = i + 1;
    }
    false
}

/// The payloads of the capabilities that were not discovered, in key order.
pub fn capability_version_payloads(
    request: &VisibleCapabilityRequest,
    capabilities: &Vec<VisibleCapability>,
    overlay_ids: &Vec<CapabilityId>,
) -> (r: Vec<CapabilityVersionPayload>)
    ensures
        r.deep_view() == capability_payloads(
            request@,
            capabilities.deep_view(),
            overlay_ids.deep_view(),
        ),
{
    let mut entries: Vec<Keyed<CapabilityVersionPayload>> = Vec::new();
    let ghost views = capabilities.deep_view();
    let ghost ids = overlay_ids.deep_view();
    let mut i: usize = 0;
    proof {
        reveal(Seq::filter);
    }
    assert(keyed_view(entries@) =~= views.take(0).filter(not_among(ids)).map_values(
        keyed_payload(request@),
    ));
    while i < capabilities.len()
        invariant
            views == capabilities.deep_view(),
            ids == overlay_ids.deep_view(),
            i <= capabilities@.len(),
            keyed_view(entries@) == views.take(i as int).filter(not_among(ids)).map_values(
                keyed_payload(request@),
            ),
        decreases capabilities@.len() - i,
    {
        let capability = &capabilities[i];
        let ghost before = keyed_view(entries@);
        proof {
            reveal(Seq::filter);
            assert(views.take(i + 1).drop_last() =~= views.take(i as int));
            assert(views.take(i + 1).last() == capability@);
        }
        if !lists(overlay_ids, &capability.descriptor.id) {
            let entry = Keyed {
                key: capability_version_key(capability),
                item: capability_version_payload(request, capability),
            };
            let ghost added = entry@;
            entries.push(entry);
            assert(keyed_view(entries@) =~= before.push(added));
            assert(added == keyed_payload(request@)(capability@));
        }
        assert(keyed_view(entries@) =~= views.take(i + 1).filter(not_among(ids)).map_values(
            keyed_payload(request@),
        ));
        i = i + 1;
    }
    assert(views.take(views.len() as int) =~= views);
    sorted_items(entries)
}

/// What the version takes from each grant of a request's context, in order. The
/// host makes the canonical form of each.
pub fn grant_version_payloads(request: &VisibleCapabilityRequest) -> (r: Vec<
    GrantVersionPayload,
>)
    ensures
        r.deep_view() == request@.context.grants.map_values(
            |grant: CapabilityGrantView| grant_payload(grant),
        ),
{
    let grants = &request.context.grants;
    let ghost payload = |grant: CapabilityGrantView| grant_payload(grant);
    let ghost views = grants.deep_view();
    let mut out: Vec<GrantVersionPayload> = Vec::new();
    let mut i: usize = 0;
    assert(out.deep_view() =~= views.take(0).map_values(payload));
    while i < grants.len()
        invariant
            payload == (|grant: CapabilityGrantView| grant_payload(grant)),
            views == grants.deep_view(),
            i <= grants@.len(),
            out.deep_view() == views.take(i as int).map_values(payload),
        decreases grants@.len() - i,
    {
        let ghost before = out.deep_view();
        let taken = grant_version_payload(&grants[i]);
        let ghost added = taken@;
        out.push(taken);
        assert(out.deep_view() =~= before.push(added));
        assert(before.push(added) =~= views.take(i + 1).map_values(payload));
        i = i + 1;
    }
    assert(views.take(views.len() as int) =~= views);
    out
}

/// What the version of a surface is computed from. `canonical` is what the host
/// made of the payload of each grant of the request's context, in their order.
pub fn surface_version(
    catalog: &CapabilityCatalog,
    request: &VisibleCapabilityRequest,
    canonical: &Vec<Result<String, String>>,
    capabilities: &Vec<VisibleCapability>,
    overlay_ids: &Vec<CapabilityId>,
) -> (r: Result<SurfaceVersionPayload, HostRuntimeError>)
    requires
        canonical@.len() == request@.context.grants.len(),
    ensures
        outcome(r) == versioned(
            catalog@,
            request@,
            outcomes(canonical@),
            capabilities.deep_view(),
            overlay_ids.deep_view(),
        ),
{
    let context = match context_version_payload(request, canonical) {
        Ok(context) => context,
        Err(error) => return Err(error),
    };
    Ok(SurfaceVersionPayload {
        version: 1,
        kind: "visible_capability_surface".to_string(),
        base_version: catalog.base_version.clone(),
        surface_kind: request.surface_kind.clone(),
        context,
        policy: PolicyVersionPayload {
            allowed_runtimes: owned(canonical_runtime_kinds(&request.policy.allowed_runtimes)),
            allowed_effects: owned(canonical_effect_kinds(&request.policy.allowed_effects)),
            include_requires_approval: request.policy.include_requires_approval,
            max_capabilities: request.policy.max_capabilities,
        },
        runtime_policy: catalog.runtime_policy.clone(),
        capabilities: capability_version_payloads(request, capabilities, overlay_ids),
    })
}

/// What the version takes from the execution context. `canonical` is what the host
/// made of the payload of each of its grants, in their order.
pub fn context_version_payload(
    request: &VisibleCapabilityRequest,
    canonical: &Vec<Result<String, String>>,
) -> (r: Result<ContextVersionPayload, HostRuntimeError>)
    requires
        canonical@.len() == request@.context.grants.len(),
    ensures
        outcome(r) == match grants_in_order(outcomes(canonical@)) {
            Ok(grants) => Ok::<ContextVersionPayloadView, HostRuntimeErrorView>(
                context_payload(request@, grants),
            ),
            Err(error) => Err(error),
        },
{
    let grants = match canonical_grants(canonical) {
        Ok(grants) => grants,
        Err(error) => return Err(error),
    };
    let context = &request.context;
    let r = ContextVersionPayload {
        tenant_id: context.tenant_id.clone(),
        user_id: context.user_id.clone(),
        agent_id: context.agent_id.clone(),
        project_id: context.project_id.clone(),
        mission_id: context.mission_id.clone(),
        thread_id: context.thread_id.clone(),
        extension_id: context.extension_id.clone(),
        runtime: context.runtime,
        grants,
    };
    assert(r@.agent_id =~= context@.agent_id);
    assert(r@.project_id =~= context@.project_id);
    assert(r@.mission_id =~= context@.mission_id);
    assert(r@.thread_id =~= context@.thread_id);
    Ok(r)
}

/// The stable text of a canonical JSON value, which is given as `serde_json`
/// writes it.
pub open spec fn stable_text(canonical: Seq<char>) -> Result<Seq<char>, HostRuntimeErrorView> {
    match written_json(canonical) {
        Ok(text) => Ok(text),
        Err(reason) => Err(HostRuntimeErrorView::InvalidRequest { reason }),
    }
}

/// The stable text of a canonical JSON value, which is given as `serde_json`
/// writes it: that very text.
pub fn stable_json_string(canonical: &String) -> (r: Result<String, HostRuntimeError>)
    ensures
        outcome(r) == stable_text(canonical@),
        r is Ok && !edged_by_space(canonical@) ==> r->Ok_0@ == canonical@,
{
    match write_json_text(canonical.as_str()) {
        Ok(text) => Ok(text),
        Err(reason) => Err(HostRuntimeError::invalid_request(reason)),
    }
}

/// The stable text of a grant, as the key it is ordered by and as what stands
/// for it, or why it has none. `canonical` is what the host made of the grant's
/// payload.
pub open spec fn keyed_grant(canonical: Result<Seq<char>, Seq<char>>) -> Result<
    (Seq<Seq<char>>, Seq<char>),
    HostRuntimeErrorView,
> {
    match canonical {
        Err(reason) => Err(HostRuntimeErrorView::InvalidRequest { reason }),
        Ok(text) => match stable_text(text) {
            Err(error) => Err(error),
            Ok(key) => Ok((seq![key], key)),
        },
    }
}

/// The grants with their stable texts, or the first error.
pub open spec fn keyed_grants(canonical: Seq<Result<Seq<char>, Seq<char>>>) -> Result<
    Seq<(Seq<Seq<char>>, Seq<char>)>,
    HostRuntimeErrorView,
>
    decreases canonical.len(),
{
    if canonical.len() == 0 {
        Ok(Seq::empty())
    } else {
        match keyed_grants(canonical.drop_last()) {
            Err(error) => Err(error),
            Ok(entries) => match keyed_grant(canonical.last()) {
                Err(error) => Err(error),
                Ok(entry) => Ok(entries.push(entry)),
            },
        }
    }
}

/// The stable texts of the grants in order, or the first error.
pub open spec fn grants_in_order(canonical: Seq<Result<Seq<char>, Seq<char>>>) -> Result<
    Seq<Seq<char>>,
    HostRuntimeErrorView,
> {
    match keyed_grants(canonical) {
        Err(error) => Err(error),
        Ok(entries) => Ok(items_of(stably_sorted(entries))),
    }
}

/// The mathematical value of a list of results.
pub open spec fn outcomes(results: Seq<Result<String, String>>) -> Seq<
    Result<Seq<char>, Seq<char>>,
> {
    results.map_values(|r: Result<String, String>| outcome(r))
}

/// The stable texts of the grants in order, or the first error. Each element of
/// `canonical` is what the host made of one grant's payload.
pub fn canonical_grants(canonical: &Vec<Result<String, String>>) -> (r: Result<
    Vec<String>,
    HostRuntimeError,
>)
    ensures
        outcome(r) == grants_in_order(outcomes(canonical@)),
{
    let mut entries: Vec<Keyed<String>> = Vec::new();
    let ghost views = outcomes(canonical@);
    let mut i: usize = 0;
    assert(keyed_view(entries@) =~= Seq::empty());
    while i < canonical.len()
        invariant
            views == outcomes(canonical@),
            i <= canonical@.len(),
            keyed_grants(views.take(i as int)) == Ok::<
                Seq<(Seq<Seq<char>>, Seq<char>)>,
                HostRuntimeErrorView,
            >(keyed_view(entries@)),
        decreases canonical@.len() - i,
    {
        let ghost before = keyed_view(entries@);
        proof {
            assert(views.take(i + 1).drop_last() =~= views.take(i as int));
            assert(views.take(i + 1).last() == outcome(canonical@[i as int]));
        }
        match &canonical[i] {
            Err(reason) => {
                let error = HostRuntimeError::invalid_request(reason.clone());
                proof {
                    lemma_first_grant_error(views, i as int, error@);
                }
                return Err(error);
            },
            Ok(text) => match stable_json_string(text) {
                Err(error) => {
                    proof {
                        lemma_first_grant_error(views, i as int, error@);
                    }
                    return Err(error);
                },
                Ok(key) => {
                    let mut keys: Vec<String> = Vec::new();
                    let ghost key_text = key@;
                    let item = key.clone();
                    keys.push(key);
                    assert(keys.deep_view() =~= seq![key_text]);
                    let entry = Keyed { key: keys, item };
                    let ghost added = entry@;
                    entries.push(entry);
                    assert(keyed_view(entries@) =~= before.push(added));
                },
            },
        }
        i = i + 1;
    }
    assert(views.take(views.len() as int) =~= views);
    Ok(sorted_items(entries))
}

proof fn lemma_first_grant_error(
    canonical: Seq<Result<Seq<char>, Seq<char>>>,
    at: int,
    error: HostRuntimeErrorView,
)
    requires
        0 <= at < canonical.len(),
        keyed_grants(canonical.take(at + 1)) == Err::<
            Seq<(Seq<Seq<char>>, Seq<char>)>,
            HostRuntimeErrorView,
        >(error),
    ensures
        keyed_grants(canonical) == Err::<
            Seq<(Seq<Seq<char>>, Seq<char>)>,
            HostRuntimeErrorView,
        >(error),
    decreases canonical.len(),
{
    if at + 1 == canonical.len() {
        assert(canonical.take(at + 1) =~= canonical);
    } else {
        assert(canonical.drop_last().take(at + 1) =~= canonical.take(at + 1));
        lemma_first_grant_error(canonical.drop_last(), at, error);
    }
}

/// Whether two requests are the same to a version: they ask the same for the same
/// caller, with the same policy up to the order and duplicates of its lists. What
/// one invocation differs from another in (its ids, its process, its mounts) does
/// not count. Grants are compared apart.
pub open spec fn same_to_a_version(
    left: VisibleCapabilityRequestView,
    right: VisibleCapabilityRequestView,
) -> bool {
    &&& left.surface_kind == right.surface_kind
    &&& left.provider_trust == right.provider_trust
    &&& left.context.tenant_id == right.context.tenant_id
    &&& left.context.user_id == right.context.user_id
    &&& left.context.agent_id == right.context.agent_id
    &&& left.context.project_id == right.context.project_id
    &&& left.context.mission_id == right.context.mission_id
    &&& left.context.thread_id == right.context.thread_id
    &&& left.context.extension_id == right.context.extension_id
    &&& left.context.runtime == right.context.runtime
    &&& left.policy.include_requires_approval == right.policy.include_requires_approval
    &&& left.policy.max_capabilities == right.policy.max_capabilities
    &&& forall|kind: RuntimeKind| #![auto]
        left.policy.allowed_runtimes.contains(kind)
            <==> right.policy.allowed_runtimes.contains(kind)
    &&& forall|kind: EffectKind| #![auto]
        left.policy.allowed_effects.contains(kind)
            <==> right.policy.allowed_effects.contains(kind)
}

/// Two requests that differ only in the order and duplicates of their policy
/// lists, and in what belongs to one invocation, have the same version payload.
pub proof fn law_version_ignores_policy_order(
    catalog: CapabilityCatalogView,
    left: VisibleCapabilityRequestView,
    right: VisibleCapabilityRequestView,
    grants: Seq<Seq<char>>,
    capabilities: Seq<VisibleCapabilityView>,
    overlay_ids: Seq<Seq<char>>,
)
    requires
        same_to_a_version(left, right),
    ensures
        version_payload(catalog, left, grants, capabilities, overlay_ids) == version_payload(
            catalog,
            right,
            grants,
            capabilities,
            overlay_ids,
        ),
{
    crate::token::law_canonical_ignores_order_and_duplicates(
        left.policy.allowed_runtimes,
        right.policy.allowed_runtimes,
    );
    crate::token::law_canonical_ignores_order_and_duplicates(
        left.policy.allowed_effects,
        right.policy.allowed_effects,
    );
    assert(keyed_payload(left) =~= keyed_payload(right));
}

/// Whether no two different capabilities share their id, provider, runtime and
/// access. Capabilities with distinct ids never do.
pub open spec fn version_keys_differ(capabilities: Seq<VisibleCapabilityView>) -> bool {
    forall|i: int, j: int|
        0 <= i < capabilities.len() && 0 <= j < capabilities.len() && version_key(
            #[trigger] capabilities[i],
        ) == version_key(#[trigger] capabilities[j]) ==> capabilities[i] == capabilities[j]
}

/// The order that capabilities come in does not change the version payload, as
/// long as no two different ones share their id, provider, runtime and access.
pub proof fn law_version_ignores_capability_order(
    catalog: CapabilityCatalogView,
    request: VisibleCapabilityRequestView,
    grants: Seq<Seq<char>>,
    left: Seq<VisibleCapabilityView>,
    right: Seq<VisibleCapabilityView>,
    overlay_ids: Seq<Seq<char>>,
)
    requires
        left.to_multiset() == right.to_multiset(),
        version_keys_differ(left),
    ensures
        version_payload(catalog, request, grants, left, overlay_ids) == version_payload(
            catalog,
            request,
            grants,
            right,
            overlay_ids,
        ),
{
    let keep = not_among(overlay_ids);
    let image = keyed_payload(request);
    lemma_selected_permutation(left, right, keep, image);
    let kept = left.filter(keep);
    let entries = kept.map_values(image);
    assert forall|i: int, j: int|
        0 <= i < entries.len() && 0 <= j < entries.len() && (#[trigger] entries[i]).0 == (
        #[trigger] entries[j]).0 implies entries[i] == entries[j] by {
        assert(kept.contains(kept[i]));
        assert(kept.contains(kept[j]));
        left.lemma_filter_contains_rev(keep, kept[i]);
        left.lemma_filter_contains_rev(keep, kept[j]);
        let p = choose|p: int| 0 <= p < left.len() && left[p] == kept[i];
        let q = choose|q: int| 0 <= q < left.len() && left[q] == kept[j];
        assert(version_key(left[p]) == version_key(left[q]));
    }
    law_sorting_ignores_order(entries, right.filter(keep).map_values(image));
}

/// The key and the stable text of a grant that has one.
pub open spec fn stable_entry() -> spec_fn(Result<Seq<char>, Seq<char>>) -> (
    Seq<Seq<char>>,
    Seq<char>,
) {
    |canonical: Result<Seq<char>, Seq<char>>| keyed_grant(canonical)->Ok_0
}

/// Whether every grant has a stable text.
pub open spec fn all_stable(canonical: Seq<Result<Seq<char>, Seq<char>>>) -> bool {
    forall|i: int| 0 <= i < canonical.len() ==> keyed_grant(#[trigger] canonical[i]) is Ok
}

proof fn lemma_stable_grants(canonical: Seq<Result<Seq<char>, Seq<char>>>)
    ensures
        keyed_grants(canonical) is Ok <==> all_stable(canonical),
        all_stable(canonical) ==> keyed_grants(canonical) == Ok::<
            Seq<(Seq<Seq<char>>, Seq<char>)>,
            HostRuntimeErrorView,
        >(canonical.map_values(stable_entry())),
    decreases canonical.len(),
{
    if canonical.len() == 0 {
        assert(canonical.map_values(stable_entry()) =~= Seq::empty());
    } else {
        let rest = canonical.drop_last();
        lemma_stable_grants(rest);
        assert(canonical[canonical.len() - 1] == canonical.last());
        assert(all_stable(canonical) ==> all_stable(rest)) by {
            if all_stable(canonical) {
                assert forall|i: int| 0 <= i < rest.len() implies keyed_grant(
                    #[trigger] rest[i],
                ) is Ok by {
                    assert(rest[i] == canonical[i]);
                }
            }
        }
        assert(all_stable(rest) && keyed_grant(canonical.last()) is Ok ==> all_stable(canonical))
            by {
            if all_stable(rest) && keyed_grant(canonical.last()) is Ok {
                assert forall|i: int| 0 <= i < canonical.len() implies keyed_grant(
                    #[trigger] canonical[i],
                ) is Ok by {
                    if i < rest.len() {
                        assert(rest[i] == canonical[i]);
                    }
                }
            }
        }
        assert(canonical.map_values(stable_entry()) =~= rest.map_values(stable_entry()).push(
            stable_entry()(canonical.last()),
        ));
    }
}

proof fn lemma_permuted_grants_are_stable(
    left: Seq<Result<Seq<char>, Seq<char>>>,
    right: Seq<Result<Seq<char>, Seq<char>>>,
)
    requires
        left.to_multiset() == right.to_multiset(),
        all_stable(left),
    ensures
        all_stable(right),
{
    left.to_multiset_ensures();
    right.to_multiset_ensures();
    assert forall|i: int| 0 <= i < right.len() implies keyed_grant(#[trigger] right[i]) is Ok by {
        assert(right.contains(right[i]));
        assert(left.to_multiset().count(right[i]) > 0);
        assert(left.contains(right[i]));
        let k = choose|k: int| 0 <= k < left.len() && left[k] == right[i];
        assert(keyed_grant(left[k]) is Ok);
    }
}

/// The order that grants come in does not change their canonical list, nor
/// whether they have one. Where several have none, which error is reported may
/// depend on the order.
pub proof fn law_version_ignores_grant_order(
    left: Seq<Result<Seq<char>, Seq<char>>>,
    right: Seq<Result<Seq<char>, Seq<char>>>,
)
    requires
        left.to_multiset() == right.to_multiset(),
    ensures
        grants_in_order(left) is Ok <==> grants_in_order(right) is Ok,
        grants_in_order(left) is Ok ==> grants_in_order(left) == grants_in_order(right),
{
    lemma_stable_grants(left);
    lemma_stable_grants(right);
    if all_stable(right) {
        lemma_permuted_grants_are_stable(right, left);
    }
    if all_stable(left) {
        lemma_permuted_grants_are_stable(left, right);
        let all = |canonical: Result<Seq<char>, Seq<char>>| true;
        lemma_filter_all(left, all);
        lemma_filter_all(right, all);
        lemma_selected_permutation(left, right, all, stable_entry());
        let entries = left.map_values(stable_entry());
        assert forall|i: int, j: int|
            0 <= i < entries.len() && 0 <= j < entries.len() && (#[trigger] entries[i]).0 == (
            #[trigger] entries[j]).0 implies entries[i] == entries[j] by {
            assert(keyed_grant(left[i]) is Ok);
            assert(keyed_grant(left[j]) is Ok);
            assert(entries[i].0[0] == entries[i].1);
            assert(entries[j].0[0] == entries[j].1);
        }
        law_sorting_ignores_order(entries, right.map_values(stable_entry()));
    }
}

/// What the host makes of the payloads of some grants, when it makes `canonical`
/// of a payload.
pub open spec fn canonical_forms(
    grants: Seq<CapabilityGrantView>,
    canonical: spec_fn(GrantVersionPayloadView) -> Result<Seq<char>, Seq<char>>,
) -> Seq<Result<Seq<char>, Seq<char>>> {
    grants.map_values(|grant: CapabilityGrantView| canonical(grant_payload(grant)))
}

/// Order never shows in a version. Two requests that differ only in the order and
/// duplicates of their policy lists, in the order of their grants and in what
/// belongs to one invocation, over surfaces with the same capabilities in any
/// order, have the same version payload.
///
/// `canonical` is how the host writes the payload of a grant. If it cannot write
/// one of them, neither request has a version.
pub proof fn law_version_ignores_order(
    catalog: CapabilityCatalogView,
    left: VisibleCapabilityRequestView,
    right: VisibleCapabilityRequestView,
    canonical: spec_fn(GrantVersionPayloadView) -> Result<Seq<char>, Seq<char>>,
    left_capabilities: Seq<VisibleCapabilityView>,
    right_capabilities: Seq<VisibleCapabilityView>,
    overlay_ids: Seq<Seq<char>>,
)
    requires
        same_to_a_version(left, right),
        left.context.grants.to_multiset() == right.context.grants.to_multiset(),
        left_capabilities.to_multiset() == right_capabilities.to_multiset(),
        version_keys_differ(left_capabilities),
    ensures
        ({
            let left_version = versioned(
                catalog,
                left,
                canonical_forms(left.context.grants, canonical),
                left_capabilities,
                overlay_ids,
            );
            let right_version = versioned(
                catalog,
                right,
                canonical_forms(right.context.grants, canonical),
                right_capabilities,
                overlay_ids,
            );
            &&& left_version is Ok <==> right_version is Ok
            &&& left_version is Ok ==> left_version == right_version
        }),
{
    let all = |grant: CapabilityGrantView| true;
    let image = |grant: CapabilityGrantView| canonical(grant_payload(grant));
    lemma_filter_all(left.context.grants, all);
    lemma_filter_all(right.context.grants, all);
    lemma_selected_permutation(left.context.grants, right.context.grants, all, image);
    assert(canonical_forms(left.context.grants, canonical) =~= left.context.grants.map_values(
        image,
    ));
    assert(canonical_forms(right.context.grants, canonical) =~= right.context.grants.map_values(
        image,
    ));
    law_version_ignores_grant_order(
        canonical_forms(left.context.grants, canonical),
        canonical_forms(right.context.grants, canonical),
    );
    let left_grants = grants_in_order(canonical_forms(left.context.grants, canonical));
    if left_grants is Ok {
        law_version_ignores_policy_order(
            catalog,
            left,
            right,
            left_grants->Ok_0,
            left_capabilities,
            overlay_ids,
        );
        law_version_ignores_capability_order(
            catalog,
            right,
            left_grants->Ok_0,
            left_capabilities,
            right_capabilities,
            overlay_ids,
        );
    }
}

/// Discovered capabilities leave no trace in the version: a surface with them
/// has the payload of the surface without them.
pub proof fn law_version_ignores_discovered_capabilities(
    catalog: CapabilityCatalogView,
    request: VisibleCapabilityRequestView,
    grants: Seq<Seq<char>>,
    floor: Seq<VisibleCapabilityView>,
    overlay: Seq<VisibleCapabilityView>,
    overlay_ids: Seq<Seq<char>>,
)
    requires
        forall|k: int|
            0 <= k < floor.len() ==> !overlay_ids.contains((#[trigger] floor[k]).descriptor.id),
        forall|k: int|
            0 <= k < overlay.len() ==> overlay_ids.contains((#[trigger] overlay[k]).descriptor.id),
    ensures
        version_payload(catalog, request, grants, floor + overlay, overlay_ids)
            == version_payload(catalog, request, grants, floor, Seq::empty()),
{
    let keep = not_among(overlay_ids);
    let keep_all = not_among(Seq::<Seq<char>>::empty());
    lemma_filter_all(floor, keep);
    lemma_filter_all(floor, keep_all);
    lemma_filter_none(overlay, keep);
    Seq::filter_distributes_over_add(floor, overlay, keep);
    assert(floor + Seq::<VisibleCapabilityView>::empty() =~= floor);
}

proof fn lemma_filter_all<T>(items: Seq<T>, keep: spec_fn(T) -> bool)
    requires
        forall|k: int| 0 <= k < items.len() ==> keep(#[trigger] items[k]),
    ensures
        items.filter(keep) == items,
    decreases items.len(),
{
    reveal(Seq::filter);
    if items.len() > 0 {
        assert forall|k: int| 0 <= k < items.drop_last().len() implies keep(
            #[trigger] items.drop_last()[k],
        ) by {
            assert(items.drop_last()[k] == items[k]);
        }
        lemma_filter_all(items.drop_last(), keep);
        assert(keep(items[items.len() - 1]));
        assert(items.drop_last().push(items.last()) =~= items);
    } else {
        assert(items.filter(keep) =~= items);
    }
}

proof fn lemma_filter_none<T>(items: Seq<T>, keep: spec_fn(T) -> bool)
    requires
        forall|k: int| 0 <= k < items.len() ==> !keep(#[trigger] items[k]),
    ensures
        items.filter(keep) == Seq::<T>::empty(),
    decreases items.len(),
{
    reveal(Seq::filter);
    if items.len() > 0 {
        assert forall|k: int| 0 <= k < items.drop_last().len() implies !keep(
            #[trigger] items.drop_last()[k],
        ) by {
            assert(items.drop_last()[k] == items[k]);
        }
        lemma_filter_none(items.drop_last(), keep);
        assert(!keep(items[items.len() - 1]));
    } else {
        assert(items.filter(keep) =~= Seq::<T>::empty());
    }
}

/// The version payload names the catalog, the caller and the policy it is for, each
/// in its own field, and lists each admitted runtime and effect once, by token.
pub proof fn law_version_names_what_it_is_for(
    catalog: CapabilityCatalogView,
    request: VisibleCapabilityRequestView,
    grants: Seq<Seq<char>>,
    capabilities: Seq<VisibleCapabilityView>,
    overlay_ids: Seq<Seq<char>>,
)
    ensures
        ({
            let payload = version_payload(catalog, request, grants, capabilities, overlay_ids);
            &&& payload.version == 1
            &&& payload.kind == "visible_capability_surface"@
            &&& payload.base_version == catalog.base_version
            &&& payload.runtime_policy == catalog.runtime_policy
            &&& payload.surface_kind == request.surface_kind
            &&& payload.context.tenant_id == request.context.tenant_id
            &&& payload.context.user_id == request.context.user_id
            &&& payload.context.agent_id == request.context.agent_id
            &&& payload.context.project_id == request.context.project_id
            &&& payload.context.mission_id == request.context.mission_id
            &&& payload.context.thread_id == request.context.thread_id
            &&& payload.context.extension_id == request.context.extension_id
            &&& payload.context.runtime == request.context.runtime
            &&& payload.context.grants == grants
            &&& payload.policy.include_requires_approval
                == request.policy.include_requires_approval
            &&& payload.policy.max_capabilities == request.policy.max_capabilities
            &&& payload.policy.allowed_runtimes.no_duplicates()
            &&& payload.policy.allowed_effects.no_duplicates()
            &&& forall|kind: RuntimeKind|
                #![trigger payload.policy.allowed_runtimes.contains(runtime_token(kind))]
                payload.policy.allowed_runtimes.contains(runtime_token(kind))
                    <==> request.policy.allowed_runtimes.contains(kind)
            &&& forall|kind: EffectKind|
                #![trigger payload.policy.allowed_effects.contains(effect_token(kind))]
                payload.policy.allowed_effects.contains(effect_token(kind))
                    <==> request.policy.allowed_effects.contains(kind)
        }),
{
    law_canonical_runtimes_are_the_given_ones(request.policy.allowed_runtimes);
    law_canonical_effects_are_the_given_ones(request.policy.allowed_effects);
    lemma_canonical_tokens_once(request.policy.allowed_runtimes);
    lemma_canonical_tokens_once(request.policy.allowed_effects);
}

proof fn lemma_canonical_tokens_once<T: Token>(items: Seq<T>)
    ensures
        tokens_of(canonical(items)).no_duplicates(),
{
    let tokens = tokens_of(canonical(items));
    law_canonical_is_ascending_and_complete(items);
    assert forall|i: int, j: int|
        0 <= i < tokens.len() && 0 <= j < tokens.len() && i != j implies tokens[i] != tokens[j] by {
        lemma_text_before_irreflexive(tokens[i]);
        if i < j {
            assert(text_before(tokens[i], tokens[j]));
        } else {
            assert(text_before(tokens[j], tokens[i]));
        }
    }
}

/// Equal version payloads are of the same catalog, the same caller and policies that
/// admit the same.
pub proof fn law_version_tells_requests_apart(
    catalog: CapabilityCatalogView,
    other_catalog: CapabilityCatalogView,
    left: VisibleCapabilityRequestView,
    right: VisibleCapabilityRequestView,
    left_grants: Seq<Seq<char>>,
    right_grants: Seq<Seq<char>>,
    left_capabilities: Seq<VisibleCapabilityView>,
    right_capabilities: Seq<VisibleCapabilityView>,
    left_ids: Seq<Seq<char>>,
    right_ids: Seq<Seq<char>>,
)
    requires
        version_payload(catalog, left, left_grants, left_capabilities, left_ids)
            == version_payload(
            other_catalog,
            right,
            right_grants,
            right_capabilities,
            right_ids,
        ),
    ensures
        catalog.base_version == other_catalog.base_version,
        catalog.runtime_policy == other_catalog.runtime_policy,
        left_grants == right_grants,
        left.surface_kind == right.surface_kind,
        left.context.tenant_id == right.context.tenant_id,
        left.context.user_id == right.context.user_id,
        left.context.agent_id == right.context.agent_id,
        left.context.project_id == right.context.project_id,
        left.context.mission_id == right.context.mission_id,
        left.context.thread_id == right.context.thread_id,
        left.context.extension_id == right.context.extension_id,
        left.context.runtime == right.context.runtime,
        left.policy.include_requires_approval == right.policy.include_requires_approval,
        left.policy.max_capabilities == right.policy.max_capabilities,
        forall|kind: RuntimeKind|
            left.policy.allowed_runtimes.contains(kind)
                <==> #[trigger] right.policy.allowed_runtimes.contains(kind),
        forall|kind: EffectKind|
            left.policy.allowed_effects.contains(kind)
                <==> #[trigger] right.policy.allowed_effects.contains(kind),
{
    law_version_names_what_it_is_for(catalog, left, left_grants, left_capabilities, left_ids);
    law_version_names_what_it_is_for(
        other_catalog,
        right,
        right_grants,
        right_capabilities,
        right_ids,
    );
    let payload = version_payload(catalog, left, left_grants, left_capabilities, left_ids);
    assert forall|kind: RuntimeKind|
        left.policy.allowed_runtimes.contains(kind)
            <==> #[trigger] right.policy.allowed_runtimes.contains(kind) by {
        assert(payload.policy.allowed_runtimes.contains(runtime_token(kind))
            <==> left.policy.allowed_runtimes.contains(kind));
    }
    assert forall|kind: EffectKind|
        left.policy.allowed_effects.contains(kind)
            <==> #[trigger] right.policy.allowed_effects.contains(kind) by {
        assert(payload.policy.allowed_effects.contains(effect_token(kind))
            <==> left.policy.allowed_effects.contains(kind));
    }
}

/// What the version takes from a grant is the grant itself, field by field, but for
/// its id, its mounts and its network policy: its effects as tokens, each once, and
/// of its secrets only their number.
pub proof fn law_grant_payload_names_the_grant(grant: CapabilityGrantView)
    requires
        grant.constraints.secrets.len() <= usize::MAX,
    ensures
        grant_payload(grant).capability == grant.capability,
        grant_payload(grant).grantee == grant.grantee,
        grant_payload(grant).resource_ceiling == grant.constraints.resource_ceiling,
        grant_payload(grant).expires_at == grant.constraints.expires_at,
        grant_payload(grant).max_invocations == grant.constraints.max_invocations,
        grant_payload(grant).secret_count == grant.constraints.secrets.len(),
        grant_payload(grant).allowed_effects.no_duplicates(),
        forall|kind: EffectKind|
            #![trigger grant_payload(grant).allowed_effects.contains(effect_token(kind))]
            grant_payload(grant).allowed_effects.contains(effect_token(kind))
                <==> grant.constraints.allowed_effects.contains(kind),
{
    law_canonical_effects_are_the_given_ones(grant.constraints.allowed_effects);
    lemma_canonical_tokens_once(grant.constraints.allowed_effects);
}

/// Whether an entry of a version payload stands for a capability: it has its
/// descriptor up to the order and duplicates of its effects, its estimate, its access
/// and what the request trusts its provider with.
pub open spec fn stands_for(
    entry: CapabilityVersionPayloadView,
    request: VisibleCapabilityRequestView,
    capability: VisibleCapabilityView,
) -> bool {
    &&& entry.descriptor.id == capability.descriptor.id
    &&& entry.descriptor.provider == capability.descriptor.provider
    &&& entry.descriptor.runtime == capability.descriptor.runtime
    &&& entry.descriptor.trust_ceiling == capability.descriptor.trust_ceiling
    &&& entry.descriptor.description == capability.descriptor.description
    &&& entry.descriptor.parameters_schema == capability.descriptor.parameters_schema
    &&& entry.descriptor.default_permission == capability.descriptor.default_permission
    &&& entry.descriptor.runtime_credentials == capability.descriptor.runtime_credentials
    &&& entry.descriptor.resource_profile == capability.descriptor.resource_profile
    &&& forall|kind: EffectKind|
        #![trigger entry.descriptor.effects.contains(kind)]
        entry.descriptor.effects.contains(kind) <==> capability.descriptor.effects.contains(kind)
    &&& entry.estimated_resources == capability.estimated_resources
    &&& capability.access == VisibleCapabilityAccess::Available ==> entry.access == "available"@
    &&& capability.access == VisibleCapabilityAccess::RequiresApproval ==> entry.access
        == "requires_approval"@
    &&& match trust_in(request.provider_trust, capability.descriptor.provider) {
        None => entry.provider_trust is None,
        Some(decision) => {
            &&& entry.provider_trust is Some
            &&& entry.provider_trust->0.effective_trust == decision.effective_trust
            &&& entry.provider_trust->0.max_resource_ceiling
                == decision.authority_ceiling.max_resource_ceiling
            &&& forall|kind: EffectKind|
                #![trigger entry.provider_trust->0.allowed_effects.contains(effect_token(kind))]
                entry.provider_trust->0.allowed_effects.contains(effect_token(kind))
                    <==> decision.authority_ceiling.allowed_effects.contains(kind)
        },
    }
}

proof fn lemma_payload_stands_for(
    request: VisibleCapabilityRequestView,
    capability: VisibleCapabilityView,
)
    ensures
        stands_for(capability_payload(request, capability), request, capability),
{
    law_canonical_effects_are_the_given_ones(capability.descriptor.effects);
    if let Some(decision) = trust_in(request.provider_trust, capability.descriptor.provider) {
        law_canonical_effects_are_the_given_ones(decision.authority_ceiling.allowed_effects);
    }
}

/// A capability that was not discovered has an entry in the version payload.
pub proof fn law_version_lists_each_own_capability(
    catalog: CapabilityCatalogView,
    request: VisibleCapabilityRequestView,
    grants: Seq<Seq<char>>,
    capabilities: Seq<VisibleCapabilityView>,
    overlay_ids: Seq<Seq<char>>,
    at: int,
)
    requires
        0 <= at < capabilities.len(),
        !overlay_ids.contains(capabilities[at].descriptor.id),
    ensures
        exists|e: int|
            0 <= e < version_payload(
                catalog,
                request,
                grants,
                capabilities,
                overlay_ids,
            ).capabilities.len() && stands_for(
                #[trigger] version_payload(
                    catalog,
                    request,
                    grants,
                    capabilities,
                    overlay_ids,
                ).capabilities[e],
                request,
                capabilities[at],
            ),
{
    let keep = not_among(overlay_ids);
    let kept = capabilities.filter(keep);
    let keyed = kept.map_values(keyed_payload(request));
    let entries = items_of(stably_sorted(keyed));
    let wanted = capability_payload(request, capabilities[at]);
    law_sorted_entries_are_the_entries_in_order(keyed);
    capabilities.lemma_filter_contains(keep, at);
    let m = choose|m: int| 0 <= m < kept.len() && kept[m] == capabilities[at];
    assert(keyed[m].1 == wanted);
    assert(entries.contains(wanted));
    let e = choose|e: int| 0 <= e < entries.len() && entries[e] == wanted;
    lemma_payload_stands_for(request, capabilities[at]);
    assert(stands_for(
        version_payload(
            catalog,
            request,
            grants,
            capabilities,
            overlay_ids,
        ).capabilities[e],
        request,
        capabilities[at],
    ));
}

/// An entry of the version payload stands for a capability that was not discovered.
pub proof fn law_version_lists_only_own_capabilities(
    catalog: CapabilityCatalogView,
    request: VisibleCapabilityRequestView,
    grants: Seq<Seq<char>>,
    capabilities: Seq<VisibleCapabilityView>,
    overlay_ids: Seq<Seq<char>>,
    at: int,
)
    requires
        0 <= at < version_payload(
            catalog,
            request,
            grants,
            capabilities,
            overlay_ids,
        ).capabilities.len(),
    ensures
        exists|k: int|
            0 <= k < capabilities.len() && !overlay_ids.contains(
                (#[trigger] capabilities[k]).descriptor.id,
            ) && stands_for(
                version_payload(
                    catalog,
                    request,
                    grants,
                    capabilities,
                    overlay_ids,
                ).capabilities[at],
                request,
                capabilities[k],
            ),
{
    let keep = not_among(overlay_ids);
    let kept = capabilities.filter(keep);
    let keyed = kept.map_values(keyed_payload(request));
    let entries = items_of(stably_sorted(keyed));
    law_sorted_entries_are_the_entries_in_order(keyed);
    assert(entries.contains(entries[at]));
    let m = choose|m: int| 0 <= m < keyed.len() && (#[trigger] keyed[m]).1 == entries[at];
    assert(kept.contains(kept[m]));
    capabilities.lemma_filter_contains_rev(keep, kept[m]);
    let k = choose|k: int| 0 <= k < capabilities.len() && capabilities[k] == kept[m];
    broadcast use vstd::seq_lib::group_filter_ensures;
    assert(keep(kept[m]));
    lemma_payload_stands_for(request, capabilities[k]);
    assert(!overlay_ids.contains(capabilities[k].descriptor.id));
}

/// The version payload has as many entries as there are capabilities that were not
/// discovered, in the order of their ids.
pub proof fn law_version_lists_capabilities_once_and_in_order(
    catalog: CapabilityCatalogView,
    request: VisibleCapabilityRequestView,
    grants: Seq<Seq<char>>,
    capabilities: Seq<VisibleCapabilityView>,
    overlay_ids: Seq<Seq<char>>,
)
    ensures
        ({
            let entries = version_payload(
                catalog,
                request,
                grants,
                capabilities,
                overlay_ids,
            ).capabilities;
            &&& entries.len() == capabilities.filter(
                |capability: VisibleCapabilityView|
                    !overlay_ids.contains(capability.descriptor.id),
            ).len()
            &&& forall|i: int, j: int|
                0 <= i < j < entries.len() ==> !text_before(
                    (#[trigger] entries[j]).descriptor.id,
                    (#[trigger] entries[i]).descriptor.id,
                )
        }),
{
    let keep = not_among(overlay_ids);
    let own = |capability: VisibleCapabilityView| !overlay_ids.contains(capability.descriptor.id);
    assert(keep =~= own);
    let kept = capabilities.filter(keep);
    let keyed = kept.map_values(keyed_payload(request));
    let sorted = stably_sorted(keyed);
    let entries = items_of(sorted);
    law_sorted_entries_are_the_entries_in_order(keyed);
    assert forall|i: int, j: int| 0 <= i < j < entries.len() implies !text_before(
        (#[trigger] entries[j]).descriptor.id,
        (#[trigger] entries[i]).descriptor.id,
    ) by {
        lemma_sorted_key_is_of_its_payload(request, kept, i);
        lemma_sorted_key_is_of_its_payload(request, kept, j);
        assert(!key_before(sorted[j].0, sorted[i].0));
        if text_before(entries[j].descriptor.id, entries[i].descriptor.id) {
            lemma_text_before_irreflexive(entries[j].descriptor.id);
        }
    }
}

proof fn lemma_sorted_key_is_of_its_payload(
    request: VisibleCapabilityRequestView,
    kept: Seq<VisibleCapabilityView>,
    at: int,
)
    requires
        0 <= at < kept.len(),
    ensures
        ({
            let sorted = stably_sorted(kept.map_values(keyed_payload(request)));
            &&& at < sorted.len()
            &&& sorted[at].0.len() > 0
            &&& sorted[at].0[0] == sorted[at].1.descriptor.id
        }),
{
    let keyed = kept.map_values(keyed_payload(request));
    let sorted = stably_sorted(keyed);
    law_sorted_entries_are_the_entries_in_order(keyed);
    sorted.to_multiset_ensures();
    keyed.to_multiset_ensures();
    assert(sorted.contains(sorted[at]));
    assert(keyed.to_multiset().count(sorted[at]) > 0);
    assert(keyed.contains(sorted[at]));
    let m = choose|m: int| 0 <= m < keyed.len() && keyed[m] == sorted[at];
    assert(keyed[m] == (version_key(kept[m]), capability_payload(request, kept[m])));
}

/// Where every grant has a canonical form that `serde_json` writes, the version holds
/// one text for each grant, as it is written, in ascending order.
pub proof fn law_version_holds_each_grant(canonical: Seq<Result<Seq<char>, Seq<char>>>)
    requires
        forall|k: int|
            0 <= k < canonical.len() ==> (#[trigger] canonical[k]) is Ok && written_json(
                canonical[k]->Ok_0,
            ) is Ok,
    ensures
        grants_in_order(canonical) is Ok,
        ({
            let texts = grants_in_order(canonical)->Ok_0;
            &&& texts.len() == canonical.len()
            &&& forall|text: Seq<char>|
                #![trigger texts.contains(text)]
                texts.contains(text) <==> exists|k: int|
                    0 <= k < canonical.len() && written_json((#[trigger] canonical[k])->Ok_0) == Ok::<
                        Seq<char>,
                        Seq<char>,
                    >(text)
            &&& forall|i: int, j: int|
                0 <= i < j < texts.len() ==> !text_before(
                    #[trigger] texts[j],
                    #[trigger] texts[i],
                )
        }),
{
    lemma_stable_grants(canonical);
    let entries = canonical.map_values(stable_entry());
    let sorted = stably_sorted(entries);
    assert forall|k: int| 0 <= k < canonical.len() implies keyed_grant(
        #[trigger] canonical[k],
    ) is Ok by {}
    assert(all_stable(canonical));
    law_sorted_entries_are_the_entries_in_order(entries);
    let texts = grants_in_order(canonical)->Ok_0;
    assert forall|text: Seq<char>|
        #![trigger texts.contains(text)]
        texts.contains(text) <==> exists|k: int|
            0 <= k < canonical.len() && written_json((#[trigger] canonical[k])->Ok_0) == Ok::<
                Seq<char>,
                Seq<char>,
            >(text) by {
        if texts.contains(text) {
            let k = choose|k: int| 0 <= k < entries.len() && (#[trigger] entries[k]).1 == text;
            assert(keyed_grant(canonical[k]) is Ok);
            assert(written_json(canonical[k]->Ok_0) == Ok::<Seq<char>, Seq<char>>(text));
        }
        if exists|k: int|
            0 <= k < canonical.len() && written_json((#[trigger] canonical[k])->Ok_0) == Ok::<
                Seq<char>,
                Seq<char>,
            >(text) {
            let k = choose|k: int|
                0 <= k < canonical.len() && written_json((#[trigger] canonical[k])->Ok_0) == Ok::<
                    Seq<char>,
                    Seq<char>,
                >(text);
            assert(entries[k].1 == text);
        }
    }
    assert forall|i: int, j: int| 0 <= i < j < texts.len() implies !text_before(
        #[trigger] texts[j],
        #[trigger] texts[i],
    ) by {
        lemma_sorted_grant_is_its_key(canonical, i);
        lemma_sorted_grant_is_its_key(canonical, j);
        assert(!key_before(sorted[j].0, sorted[i].0));
        if text_before(texts[j], texts[i]) {
            lemma_text_before_irreflexive(texts[j]);
        }
    }
}

proof fn lemma_sorted_grant_is_its_key(canonical: Seq<Result<Seq<char>, Seq<char>>>, at: int)
    requires
        all_stable(canonical),
        0 <= at < canonical.len(),
    ensures
        ({
            let sorted = stably_sorted(canonical.map_values(stable_entry()));
            &&& at < sorted.len()
            &&& sorted[at].0 == seq![sorted[at].1]
        }),
{
    let entries = canonical.map_values(stable_entry());
    let sorted = stably_sorted(entries);
    law_sorted_entries_are_the_entries_in_order(entries);
    sorted.to_multiset_ensures();
    entries.to_multiset_ensures();
    assert(sorted.contains(sorted[at]));
    assert(entries.to_multiset().count(sorted[at]) > 0);
    assert(entries.contains(sorted[at]));
    let m = choose|m: int| 0 <= m < entries.len() && entries[m] == sorted[at];
    assert(keyed_grant(canonical[m]) is Ok);
}

/// The first grant without a stable text fails the version, with the reason the host
/// or `serde_json` gave for that grant.
pub proof fn law_first_unstable_grant_fails_the_version(
    canonical: Seq<Result<Seq<char>, Seq<char>>>,
    at: int,
    reason: Seq<char>,
)
    requires
        0 <= at < canonical.len(),
        forall|k: int|
            0 <= k < at ==> (#[trigger] canonical[k]) is Ok && written_json(
                canonical[k]->Ok_0,
            ) is Ok,
        canonical[at] == Err::<Seq<char>, Seq<char>>(reason) || (canonical[at] is Ok
            && written_json(canonical[at]->Ok_0) == Err::<Seq<char>, Seq<char>>(reason)),
    ensures
        grants_in_order(canonical) == Err::<Seq<Seq<char>>, HostRuntimeErrorView>(
            HostRuntimeErrorView::InvalidRequest { reason },
        ),
{
    let before = canonical.take(at);
    assert forall|k: int| 0 <= k < before.len() implies keyed_grant(
        #[trigger] before[k],
    ) is Ok by {
        assert(before[k] == canonical[k]);
    }
    lemma_stable_grants(before);
    let upto = canonical.take(at + 1);
    assert(upto.drop_last() =~= before);
    assert(upto.last() == canonical[at]);
    lemma_first_grant_error(canonical, at, HostRuntimeErrorView::InvalidRequest { reason });
}

/// A version fails exactly where a grant has no stable text, and holds else the
/// stable texts of its grants.
pub proof fn law_only_grants_fail_a_version(
    catalog: CapabilityCatalogView,
    request: VisibleCapabilityRequestView,
    canonical: Seq<Result<Seq<char>, Seq<char>>>,
    capabilities: Seq<VisibleCapabilityView>,
    overlay_ids: Seq<Seq<char>>,
)
    ensures
        ({
            let version = versioned(catalog, request, canonical, capabilities, overlay_ids);
            match grants_in_order(canonical) {
                Err(error) => version matches Err(failed) && failed == error,
                Ok(grants) => version matches Ok(payload) && payload == version_payload(
                    catalog,
                    request,
                    grants,
                    capabilities,
                    overlay_ids,
                ) && payload.context.grants == grants,
            }
        }),
{
}

/// Capabilities are ordered by id, then by provider, runtime and access.
pub proof fn law_capabilities_are_ordered_by_id_first(capability: VisibleCapabilityView)
    ensures
        version_key(capability).len() == 4,
        version_key(capability)[0] == capability.descriptor.id,
        version_key(capability)[1] == capability.descriptor.provider,
        version_key(capability)[2] == runtime_token(capability.descriptor.runtime),
        capability.access == VisibleCapabilityAccess::Available ==> version_key(capability)[3]
            == "available"@,
        capability.access == VisibleCapabilityAccess::RequiresApproval ==> version_key(
            capability,
        )[3] == "requires_approval"@,
{
}

} // verus!
