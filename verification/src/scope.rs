//! Resource scopes, and the hire identity that gates per-agent discovery.

use vstd::prelude::*;

use crate::ids::{AgentId, InvocationId, MissionId, ProjectId, TenantId, ThreadId, UserId};

verus! {

/// Identity a request runs under.
#[derive(Debug, PartialEq, Eq)]
pub struct ResourceScope {
    pub tenant_id: TenantId,
    pub user_id: UserId,
    pub agent_id: Option<AgentId>,
    pub project_id: Option<ProjectId>,
    pub mission_id: Option<MissionId>,
    pub thread_id: Option<ThreadId>,
    pub invocation_id: InvocationId,
}

/// The mathematical value of a [`ResourceScope`].
#[verifier::ext_equal]
pub struct ResourceScopeView {
    pub tenant_id: Seq<char>,
    pub user_id: Seq<char>,
    pub agent_id: Option<Seq<char>>,
    pub project_id: Option<Seq<char>>,
    pub mission_id: Option<Seq<char>>,
    pub thread_id: Option<Seq<char>>,
    pub invocation_id: InvocationId,
}

impl View for ResourceScope {
    type V = ResourceScopeView;

    open spec fn view(&self) -> ResourceScopeView {
        ResourceScopeView {
            tenant_id: self.tenant_id@,
            user_id: self.user_id@,
            agent_id: self.agent_id.deep_view(),
            project_id: self.project_id.deep_view(),
            mission_id: self.mission_id.deep_view(),
            thread_id: self.thread_id.deep_view(),
            invocation_id: self.invocation_id,
        }
    }
}

impl DeepView for ResourceScope {
    type V = ResourceScopeView;

    open spec fn deep_view(&self) -> ResourceScopeView {
        self@
    }
}

impl Clone for ResourceScope {
    fn clone(&self) -> (r: Self)
        ensures
            r@ == self@,
    {
        let r = ResourceScope {
            tenant_id: self.tenant_id.clone(),
            user_id: self.user_id.clone(),
            agent_id: self.agent_id.clone(),
            project_id: self.project_id.clone(),
            mission_id: self.mission_id.clone(),
            thread_id: self.thread_id.clone(),
            invocation_id: self.invocation_id,
        };
        assert(r.agent_id.deep_view() =~= self.agent_id.deep_view());
        assert(r.project_id.deep_view() =~= self.project_id.deep_view());
        assert(r.mission_id.deep_view() =~= self.mission_id.deep_view());
        assert(r.thread_id.deep_view() =~= self.thread_id.deep_view());
        r
    }
}

/// Owner identity of a provisioned hire.
///
/// The only way to obtain one is [`HireScope::from_scope`], which needs a scope
/// that carries an agent. A turn without an agent therefore cannot reach
/// hosted-MCP discovery, nor populate its cache.
#[derive(Debug, PartialEq, Eq)]
pub struct HireScope {
    tenant_id: TenantId,
    user_id: UserId,
    agent_id: AgentId,
    project_id: Option<ProjectId>,
    invocation_id: InvocationId,
}

/// The mathematical value of a [`HireScope`].
#[verifier::ext_equal]
pub struct HireScopeView {
    pub tenant_id: Seq<char>,
    pub user_id: Seq<char>,
    pub agent_id: Seq<char>,
    pub project_id: Option<Seq<char>>,
    pub invocation_id: InvocationId,
}

impl View for HireScope {
    type V = HireScopeView;

    closed spec fn view(&self) -> HireScopeView {
        HireScopeView {
            tenant_id: self.tenant_id@,
            user_id: self.user_id@,
            agent_id: self.agent_id@,
            project_id: self.project_id.deep_view(),
            invocation_id: self.invocation_id,
        }
    }
}

impl DeepView for HireScope {
    type V = HireScopeView;

    open spec fn deep_view(&self) -> HireScopeView {
        self@
    }
}

impl Clone for HireScope {
    fn clone(&self) -> (r: Self)
        ensures
            r@ == self@,
    {
        let r = HireScope {
            tenant_id: self.tenant_id.clone(),
            user_id: self.user_id.clone(),
            agent_id: self.agent_id.clone(),
            project_id: self.project_id.clone(),
            invocation_id: self.invocation_id,
        };
        assert(r.project_id.deep_view() =~= self.project_id.deep_view());
        r
    }
}

/// Whether two optional texts are equal.
pub fn same_optional_text(a: &Option<String>, b: &Option<String>) -> (r: bool)
    ensures
        r == (a.deep_view() == b.deep_view()),
{
    match (a, b) {
        (Some(left), Some(right)) => *left == *right,
        (None, None) => true,
        _ => false,
    }
}

impl ResourceScope {
    /// Whether two scopes are the same.
    pub fn same_as(&self, other: &Self) -> (r: bool)
        ensures
            r == (self@ == other@),
    {
        self.tenant_id == other.tenant_id && self.user_id == other.user_id && same_optional_text(
            &self.agent_id,
            &other.agent_id,
        ) && same_optional_text(&self.project_id, &other.project_id) && same_optional_text(
            &self.mission_id,
            &other.mission_id,
        ) && same_optional_text(&self.thread_id, &other.thread_id) && self.invocation_id
            == other.invocation_id
    }
}

/// The hire a scope belongs to, if the scope names an agent.
pub open spec fn hire_of(scope: ResourceScopeView) -> Option<HireScopeView> {
    match scope.agent_id {
        Some(agent_id) => Some(
            HireScopeView {
                tenant_id: scope.tenant_id,
                user_id: scope.user_id,
                agent_id,
                project_id: scope.project_id,
                invocation_id: scope.invocation_id,
            },
        ),
        None => None,
    }
}

/// The scope under which a hire's discovery lease is taken: the hire's own
/// identity, with no mission and no thread.
pub open spec fn owner_scope_of(hire: HireScopeView) -> ResourceScopeView {
    ResourceScopeView {
        tenant_id: hire.tenant_id,
        user_id: hire.user_id,
        agent_id: Some(hire.agent_id),
        project_id: hire.project_id,
        mission_id: None,
        thread_id: None,
        invocation_id: hire.invocation_id,
    }
}

impl HireScope {
    /// Builds a hire scope exactly when the scope carries an agent.
    ///
    /// `None` means: serve the static floor only, never discover, never cache.
    pub fn from_scope(scope: &ResourceScope) -> (r: Option<Self>)
        ensures
            r.deep_view() == hire_of(scope@),
    {
        match &scope.agent_id {
            Some(agent_id) => Some(
                HireScope {
                    tenant_id: scope.tenant_id.clone(),
                    user_id: scope.user_id.clone(),
                    agent_id: agent_id.clone(),
                    project_id: scope.project_id.clone(),
                    invocation_id: scope.invocation_id,
                },
            ),
            None => None,
        }
    }

    pub fn tenant_id(&self) -> (r: &TenantId)
        ensures
            r@ == self@.tenant_id,
    {
        &self.tenant_id
    }

    pub fn user_id(&self) -> (r: &UserId)
        ensures
            r@ == self@.user_id,
    {
        &self.user_id
    }

    pub fn agent_id(&self) -> (r: &AgentId)
        ensures
            r@ == self@.agent_id,
    {
        &self.agent_id
    }

    pub fn project_id(&self) -> (r: Option<&ProjectId>)
        ensures
            r.deep_view() == self@.project_id,
    {
        self.project_id.as_ref()
    }

    /// Owner scope for the discovery lease: the hire's identity and
    /// invocation, with mission and thread cleared.
    pub fn to_owner_scope(&self) -> (r: ResourceScope)
        ensures
            r@ == owner_scope_of(self@),
    {
        ResourceScope {
            tenant_id: self.tenant_id.clone(),
            user_id: self.user_id.clone(),
            agent_id: Some(self.agent_id.clone()),
            project_id: self.project_id.clone(),
            mission_id: None,
            thread_id: None,
            invocation_id: self.invocation_id,
        }
    }
}

/// A hire exists exactly for scopes with an agent; its owner scope is the
/// given scope without mission and thread.
pub proof fn law_owner_scope_clears_mission_and_thread(scope: ResourceScopeView)
    ensures
        hire_of(scope) is Some <==> scope.agent_id is Some,
        hire_of(scope) matches Some(hire) ==> owner_scope_of(hire) == (ResourceScopeView {
            mission_id: None,
            thread_id: None,
            ..scope
        }),
{
}

/// The owner scope of a hire leads back to the same hire.
pub proof fn law_owner_scope_keeps_the_hire(hire: HireScopeView)
    ensures
        hire_of(owner_scope_of(hire)) == Some(hire),
{
}

/// A hire has the tenant, the user, the agent, the project and the invocation of the
/// scope it is taken from; a scope made of a hire has the same five.
pub proof fn law_hire_has_the_identity_of_its_scope(scope: ResourceScopeView, hire: HireScopeView)
    ensures
        hire_of(scope) matches Some(found) ==> {
            &&& found.tenant_id == scope.tenant_id
            &&& found.user_id == scope.user_id
            &&& scope.agent_id == Some(found.agent_id)
            &&& found.project_id == scope.project_id
            &&& found.invocation_id == scope.invocation_id
        },
        hire_of(scope) is None ==> scope.agent_id is None,
        owner_scope_of(hire).tenant_id == hire.tenant_id,
        owner_scope_of(hire).user_id == hire.user_id,
        owner_scope_of(hire).agent_id == Some(hire.agent_id),
        owner_scope_of(hire).project_id == hire.project_id,
        owner_scope_of(hire).invocation_id == hire.invocation_id,
        owner_scope_of(hire).mission_id is None,
        owner_scope_of(hire).thread_id is None,
{
}

} // verus!
