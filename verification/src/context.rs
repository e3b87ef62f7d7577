//! Execution contexts and the trust decisions made about providers.

use vstd::prelude::*;

use crate::capability::{
    EffectKind, ResourceCeiling, ResourceCeilingView, RuntimeKind, TrustClass,
};
use crate::grant::{CapabilityGrant, CapabilityGrantView, MountView, MountViewView};
use crate::ids::{
    AgentId, ExtensionId, InvocationId, MissionId, ProjectId, TenantId, ThreadId, UserId,
};
use crate::lookup::{
    first_where, lemma_first_where_at, lemma_first_where_none, lemma_first_where_position,
};
use crate::scope::{ResourceScope, ResourceScopeView};

verus! {

/// Identity, authority and scope that a capability runs with.
#[derive(Debug, PartialEq, Eq)]
pub struct ExecutionContext {
    pub invocation_id: InvocationId,
    pub correlation_id: u128,
    pub process_id: Option<String>,
    pub parent_process_id: Option<String>,
    pub tenant_id: TenantId,
    pub user_id: UserId,
    pub agent_id: Option<AgentId>,
    pub project_id: Option<ProjectId>,
    pub mission_id: Option<MissionId>,
    pub thread_id: Option<ThreadId>,
    pub extension_id: ExtensionId,
    pub runtime: RuntimeKind,
    pub trust: TrustClass,
    pub grants: Vec<CapabilityGrant>,
    pub mounts: MountView,
    pub resource_scope: ResourceScope,
}

/// The mathematical value of a [`ExecutionContext`].
#[verifier::ext_equal]
pub struct ExecutionContextView {
    pub invocation_id: InvocationId,
    pub correlation_id: u128,
    pub process_id: Option<Seq<char>>,
    pub parent_process_id: Option<Seq<char>>,
    pub tenant_id: Seq<char>,
    pub user_id: Seq<char>,
    pub agent_id: Option<Seq<char>>,
    pub project_id: Option<Seq<char>>,
    pub mission_id: Option<Seq<char>>,
    pub thread_id: Option<Seq<char>>,
    pub extension_id: Seq<char>,
    pub runtime: RuntimeKind,
    pub trust: TrustClass,
    pub grants: Seq<CapabilityGrantView>,
    pub mounts: MountViewView,
    pub resource_scope: ResourceScopeView,
}

impl View for ExecutionContext {
    type V = ExecutionContextView;

    open spec fn view(&self) -> ExecutionContextView {
        ExecutionContextView {
            invocation_id: self.invocation_id,
            correlation_id: self.correlation_id,
            process_id: self.process_id.deep_view(),
            parent_process_id: self.parent_process_id.deep_view(),
            tenant_id: self.tenant_id@,
            user_id: self.user_id@,
            agent_id: self.agent_id.deep_view(),
            project_id: self.project_id.deep_view(),
            mission_id: self.mission_id.deep_view(),
            thread_id: self.thread_id.deep_view(),
            extension_id: self.extension_id@,
            runtime: self.runtime,
            trust: self.trust,
            grants: self.grants.deep_view(),
            mounts: self.mounts@,
            resource_scope: self.resource_scope@,
        }
    }
}

impl DeepView for ExecutionContext {
    type V = ExecutionContextView;

    open spec fn deep_view(&self) -> ExecutionContextView {
        self@
    }
}

impl Clone for ExecutionContext {
    fn clone(&self) -> (r: Self)
        ensures
            r@ == self@,
    {
        let r = ExecutionContext {
            invocation_id: self.invocation_id,
            correlation_id: self.correlation_id,
            process_id: self.process_id.clone(),
            parent_process_id: self.parent_process_id.clone(),
            tenant_id: self.tenant_id.clone(),
            user_id: self.user_id.clone(),
            agent_id: self.agent_id.clone(),
            project_id: self.project_id.clone(),
            mission_id: self.mission_id.clone(),
            thread_id: self.thread_id.clone(),
            extension_id: self.extension_id.clone(),
            runtime: self.runtime,
            trust: self.trust,
            grants: self.grants.clone(),
            mounts: self.mounts.clone(),
            resource_scope: self.resource_scope.clone(),
        };
        assert(r.process_id.deep_view() =~= self.process_id.deep_view());
        assert(r.parent_process_id.deep_view() =~= self.parent_process_id.deep_view());
        assert(r.agent_id.deep_view() =~= self.agent_id.deep_view());
        assert(r.project_id.deep_view() =~= self.project_id.deep_view());
        assert(r.mission_id.deep_view() =~= self.mission_id.deep_view());
        assert(r.thread_id.deep_view() =~= self.thread_id.deep_view());
        assert(r.grants.deep_view() =~= self.grants.deep_view());
        r
    }
}

/// The most authority a trust decision gives.
#[derive(Debug, PartialEq, Eq)]
pub struct AuthorityCeiling {
    pub allowed_effects: Vec<EffectKind>,
    pub max_resource_ceiling: Option<ResourceCeiling>,
}

/// The mathematical value of a [`AuthorityCeiling`].
#[verifier::ext_equal]
pub struct AuthorityCeilingView {
    pub allowed_effects: Seq<EffectKind>,
    pub max_resource_ceiling: Option<ResourceCeilingView>,
}

impl View for AuthorityCeiling {
    type V = AuthorityCeilingView;

    open spec fn view(&self) -> AuthorityCeilingView {
        AuthorityCeilingView {
            allowed_effects: self.allowed_effects@,
            max_resource_ceiling: self.max_resource_ceiling.deep_view(),
        }
    }
}

impl DeepView for AuthorityCeiling {
    type V = AuthorityCeilingView;

    open spec fn deep_view(&self) -> AuthorityCeilingView {
        self@
    }
}

impl Clone for AuthorityCeiling {
    fn clone(&self) -> (r: Self)
        ensures
            r@ == self@,
    {
        let r = AuthorityCeiling {
            allowed_effects: self.allowed_effects.clone(),
            max_resource_ceiling: self.max_resource_ceiling.clone(),
        };
        assert(r.allowed_effects@ =~= self.allowed_effects@);
        assert(r.max_resource_ceiling.deep_view() =~= self.max_resource_ceiling.deep_view());
        r
    }
}

/// What the host decided to trust a provider with.
#[derive(Debug, PartialEq, Eq)]
pub struct TrustDecision {
    pub effective_trust: TrustClass,
    pub authority_ceiling: AuthorityCeiling,
}

/// The mathematical value of a [`TrustDecision`].
#[verifier::ext_equal]
pub struct TrustDecisionView {
    pub effective_trust: TrustClass,
    pub authority_ceiling: AuthorityCeilingView,
}

impl View for TrustDecision {
    type V = TrustDecisionView;

    open spec fn view(&self) -> TrustDecisionView {
        TrustDecisionView {
            effective_trust: self.effective_trust,
            authority_ceiling: self.authority_ceiling@,
        }
    }
}

impl DeepView for TrustDecision {
    type V = TrustDecisionView;

    open spec fn deep_view(&self) -> TrustDecisionView {
        self@
    }
}

impl Clone for TrustDecision {
    fn clone(&self) -> (r: Self)
        ensures
            r@ == self@,
    {
        TrustDecision {
            effective_trust: self.effective_trust,
            authority_ceiling: self.authority_ceiling.clone(),
        }
    }
}

/// The trust decision about one provider.
#[derive(Debug, PartialEq, Eq)]
pub struct ProviderTrust {
    pub provider: ExtensionId,
    pub decision: TrustDecision,
}

/// The mathematical value of a [`ProviderTrust`].
#[verifier::ext_equal]
pub struct ProviderTrustView {
    pub provider: Seq<char>,
    pub decision: TrustDecisionView,
}

impl View for ProviderTrust {
    type V = ProviderTrustView;

    open spec fn view(&self) -> ProviderTrustView {
        ProviderTrustView {
            provider: self.provider@,
            decision: self.decision@,
        }
    }
}

impl DeepView for ProviderTrust {
    type V = ProviderTrustView;

    open spec fn deep_view(&self) -> ProviderTrustView {
        self@
    }
}

impl Clone for ProviderTrust {
    fn clone(&self) -> (r: Self)
        ensures
            r@ == self@,
    {
        ProviderTrust {
            provider: self.provider.clone(),
            decision: self.decision.clone(),
        }
    }
}

/// The trust decision about a provider, if one was made.
pub open spec fn trust_in(trust: Seq<ProviderTrustView>, provider: Seq<char>) -> Option<
    TrustDecisionView,
> {
    match first_where(trust, |entry: ProviderTrustView| entry.provider == provider) {
        Some(entry) => Some(entry.decision),
        None => None,
    }
}

/// The trust decision about a provider, if one was made.
pub fn provider_trust<'a>(trust: &'a Vec<ProviderTrust>, provider: &ExtensionId) -> (r: Option<
    &'a TrustDecision,
>)
    ensures
        r.deep_view() == trust_in(trust.deep_view(), provider@),
{
    let ghost views = trust.deep_view();
    let ghost wanted = |entry: ProviderTrustView| entry.provider == provider@;
    let mut i: usize = 0;
    while i < trust.len()
        invariant
            views == trust.deep_view(),
            wanted == (|entry: ProviderTrustView| entry.provider == provider@),
            i <= trust@.len(),
            forall|k: int| 0 <= k < i ==> !wanted(#[trigger] views[k]),
        decreases trust@.len() - i,
    {
        assert(views[i as int] == trust@[i as int]@);
        if trust[i].provider == *provider {
            proof {
                lemma_first_where_at(views, wanted, i as int);
            }
            return Some(&trust[i].decision);
        }
        i = i + 1;
    }
    proof {
        lemma_first_where_none(views, wanted);
    }
    None
}

/// The trust in a provider is the decision of the first entry that names it, at
/// whatever position it stands; a provider that no entry names has none.
pub proof fn law_trust_is_found_by_its_provider(trust: Seq<ProviderTrustView>, provider: Seq<char>)
    ensures
        match trust_in(trust, provider) {
            Some(decision) => exists|at: int|
                0 <= at < trust.len() && (#[trigger] trust[at]).provider == provider
                    && trust[at].decision == decision && forall|k: int|
                    0 <= k < at ==> (#[trigger] trust[k]).provider != provider,
            None => forall|k: int|
                0 <= k < trust.len() ==> (#[trigger] trust[k]).provider != provider,
        },
{
    lemma_first_where_position(trust, |entry: ProviderTrustView| entry.provider == provider);
}

} // verus!
