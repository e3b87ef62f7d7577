use ironclaw::scope::{HireScope, ResourceScope};

fn scope_with_agent(agent_id: Option<&str>) -> ResourceScope {
    ResourceScope {
        tenant_id: "acme".to_string(),
        user_id: "user-1".to_string(),
        agent_id: agent_id.map(|id| id.to_string()),
        project_id: Some("proj-1".to_string()),
        mission_id: Some("mission-1".to_string()),
        thread_id: None,
        invocation_id: 42,
    }
}

#[test]
fn from_scope_is_none_without_agent_id() {
    assert!(HireScope::from_scope(&scope_with_agent(None)).is_none());
}

#[test]
fn from_scope_is_some_with_agent_id() {
    let hire = HireScope::from_scope(&scope_with_agent(Some("agent-1")));
    assert!(hire.is_some());
    assert_eq!(hire.unwrap().agent_id().as_str(), "agent-1");
}

#[test]
fn to_owner_scope_keeps_owner_identity_but_clears_mission_and_thread() {
    let scope = scope_with_agent(Some("agent-1"));
    let hire = HireScope::from_scope(&scope).expect("agent present");
    let owner_scope = hire.to_owner_scope();

    assert_eq!(owner_scope.tenant_id, scope.tenant_id);
    assert_eq!(owner_scope.user_id, scope.user_id);
    assert_eq!(owner_scope.agent_id, scope.agent_id);
    assert_eq!(owner_scope.project_id, scope.project_id);
    assert_eq!(owner_scope.invocation_id, scope.invocation_id);
    assert!(owner_scope.mission_id.is_none());
    assert!(owner_scope.thread_id.is_none());
}

#[test]
fn owner_scope_leads_back_to_the_same_hire() {
    let hire = HireScope::from_scope(&scope_with_agent(Some("agent-1"))).expect("agent present");
    assert_eq!(HireScope::from_scope(&hire.to_owner_scope()), Some(hire));
}

#[test]
fn scopes_differ_in_any_part() {
    let scope = scope_with_agent(Some("agent-1"));
    assert!(scope.same_as(&scope.clone()));
    assert!(!scope.same_as(&scope_with_agent(Some("agent-2"))));
    assert!(!scope.same_as(&scope_with_agent(None)));
}
