use ironclaw::approval::{
    active_extension_persistent_approval_allowed, discovered_answer_for, hire_to_discover_for,
    persistent_verdict, ActiveCapability, ApprovalGateRecord, ApprovalInteractionRejectionKind, DiscoveredAnswer, ExtensionSurface,
    HostAction, LeaseAnswers, LeaseStep, LocalDevApprovalLeaseTermsProvider,
    LocalDevApprovalPolicyAction, PersistentStep, PolicyAnswer, SurfaceAnswer,
};
use ironclaw::capability::{
    CapabilityDescriptor, EffectKind, NetworkPolicy, PermissionMode, RuntimeKind, TrustClass,
};
use ironclaw::grant::{CapabilityGrant, GrantConstraints, LeaseApproval, MountView, Principal};
use ironclaw::overlay::grants::DiscoveredCapabilityGrantSource;
use ironclaw::registry::ExtensionRegistry;
use ironclaw::scope::{HireScope, ResourceScope};

const OUTBOUND: &str = "outbound.delivery_target_set";

fn empty_registry() -> ExtensionRegistry {
    ExtensionRegistry {
        capabilities: Vec::new(),
        packages: Vec::new(),
    }
}

fn provider() -> LocalDevApprovalLeaseTermsProvider {
    LocalDevApprovalLeaseTermsProvider::new(empty_registry(), OUTBOUND.to_string())
}

fn scope(agent: Option<&str>) -> ResourceScope {
    ResourceScope {
        tenant_id: "tenant".to_string(),
        user_id: "user".to_string(),
        agent_id: agent.map(|id| id.to_string()),
        project_id: None,
        mission_id: None,
        thread_id: Some("thread".to_string()),
        invocation_id: 3,
    }
}

fn gate(action: HostAction) -> ApprovalGateRecord {
    ApprovalGateRecord {
        resource_scope: scope(Some("agent-1")),
        requested_by: Principal::Extension("caller".to_string()),
        action,
    }
}

fn dispatch(capability: &str) -> ApprovalGateRecord {
    gate(HostAction::Dispatch {
        capability: capability.to_string(),
    })
}

fn spawn(capability: &str) -> ApprovalGateRecord {
    gate(HostAction::SpawnCapability {
        capability: capability.to_string(),
    })
}

fn constraints(effects: Vec<EffectKind>, secrets: Vec<String>) -> GrantConstraints {
    GrantConstraints {
        allowed_effects: effects,
        mounts: MountView { mounts: Vec::new() },
        network: NetworkPolicy {
            allowed_targets: Vec::new(),
            deny_private_ip_ranges: true,
            max_egress_bytes: None,
        },
        secrets,
        resource_ceiling: None,
        expires_at: None,
        max_invocations: None,
    }
}

fn surface(
    capability: &str,
    effects: Vec<EffectKind>,
    permission: PermissionMode,
    secrets: Vec<String>,
) -> SurfaceAnswer {
    SurfaceAnswer::Known {
        surface: ExtensionSurface {
            capabilities: vec![ActiveCapability {
                id: capability.to_string(),
                effects: effects.clone(),
                default_permission: permission,
            }],
            grants: vec![CapabilityGrant {
                capability: capability.to_string(),
                grantee: Principal::Extension("caller".to_string()),
                issued_by: Principal::HostRuntime,
                constraints: constraints(effects, secrets),
            }],
        },
    }
}

fn no_surface() -> SurfaceAnswer {
    SurfaceAnswer::Known {
        surface: ExtensionSurface {
            capabilities: Vec::new(),
            grants: Vec::new(),
        },
    }
}

fn unasked() -> LeaseAnswers {
    LeaseAnswers {
        first_surface: SurfaceAnswer::Unasked,
        policy: PolicyAnswer::Unasked,
        surface: SurfaceAnswer::Unasked,
        discovered: DiscoveredAnswer::Unasked,
    }
}

fn granted(step: LeaseStep) -> LeaseApproval {
    match step {
        LeaseStep::Granted { approval } => approval,
        other => panic!("no terms: {other:?}"),
    }
}

fn unavailable() -> LeaseStep {
    LeaseStep::Rejected {
        kind: ApprovalInteractionRejectionKind::LeaseTermsUnavailable,
    }
}

#[test]
fn extension_capability_missing_from_builtin_policy_gets_one_shot_lease_terms() {
    let mut answers = unasked();
    let gate = dispatch("gmail.send_message");
    assert_eq!(provider().lease_terms_for(&gate, &answers), LeaseStep::AskPolicy);
    answers.policy = PolicyAnswer::MissingGrant;
    assert_eq!(provider().lease_terms_for(&gate, &answers), LeaseStep::AskSurface);
    answers.surface = surface(
        "gmail.send_message",
        vec![EffectKind::Network, EffectKind::UseSecret],
        PermissionMode::Allow,
        Vec::new(),
    );
    let approval = granted(provider().lease_terms_for(&gate, &answers));

    assert_eq!(approval.issued_by, Principal::HostRuntime);
    assert_eq!(approval.constraints.max_invocations, Some(1));
    assert_eq!(
        approval.constraints.allowed_effects,
        vec![EffectKind::Network, EffectKind::UseSecret]
    );
    assert_eq!(approval.constraints.secrets, Vec::<String>::new());
}

#[test]
fn extension_spawn_capability_uses_extension_surface_terms_before_default_policy() {
    let mut answers = unasked();
    let gate = spawn("gmail.send_message");
    assert_eq!(provider().lease_terms_for(&gate, &answers), LeaseStep::AskFirstSurface);
    let effects = vec![
        EffectKind::SpawnProcess,
        EffectKind::Network,
        EffectKind::UseSecret,
    ];
    answers.first_surface = surface(
        "gmail.send_message",
        effects.clone(),
        PermissionMode::Allow,
        vec!["gmail_token".to_string()],
    );
    let approval = granted(provider().lease_terms_for(&gate, &answers));

    assert_eq!(approval.issued_by, Principal::HostRuntime);
    assert_eq!(approval.constraints.max_invocations, Some(1));
    assert_eq!(approval.constraints.allowed_effects, effects);
    assert_eq!(approval.constraints.secrets, vec!["gmail_token".to_string()]);
}

#[test]
fn a_spawn_without_the_effect_is_refused() {
    let mut answers = unasked();
    answers.first_surface = surface(
        "gmail.send_message",
        vec![EffectKind::Network],
        PermissionMode::Allow,
        Vec::new(),
    );
    assert_eq!(
        provider().lease_terms_for(&spawn("gmail.send_message"), &answers),
        unavailable()
    );
}

#[test]
fn policy_terms_are_taken_as_they_are() {
    let mut answers = unasked();
    let mut terms = constraints(vec![EffectKind::ReadFilesystem], Vec::new());
    terms.max_invocations = Some(9);
    answers.policy = PolicyAnswer::Granted {
        approval: LeaseApproval {
            issued_by: Principal::HostRuntime,
            constraints: terms,
        },
    };
    let approval = granted(provider().lease_terms_for(&dispatch("fs.read"), &answers));
    assert_eq!(approval.constraints.max_invocations, Some(9));
    answers.policy = PolicyAnswer::Failed;
    assert_eq!(provider().lease_terms_for(&dispatch("fs.read"), &answers), unavailable());
}

#[test]
fn other_actions_are_unsupported() {
    assert_eq!(
        provider().lease_terms_for(&gate(HostAction::Other), &unasked()),
        LeaseStep::Rejected {
            kind: ApprovalInteractionRejectionKind::UnsupportedAction
        }
    );
    let step = provider().persistent_approval_allowed(
        &gate(HostAction::Other),
        &PolicyAnswer::Unasked,
        &SurfaceAnswer::Unasked,
    );
    assert_eq!(
        persistent_verdict(step),
        Some(Err(ApprovalInteractionRejectionKind::UnsupportedAction))
    );
}

fn persistent(permission: PermissionMode) -> PersistentStep {
    let gate = dispatch("gmail.send_message");
    assert_eq!(
        provider().persistent_approval_allowed(
            &gate,
            &PolicyAnswer::Unasked,
            &SurfaceAnswer::Unasked
        ),
        PersistentStep::AskSurface
    );
    provider().persistent_approval_allowed(
        &gate,
        &PolicyAnswer::Unasked,
        &surface(
            "gmail.send_message",
            vec![EffectKind::Network],
            permission,
            Vec::new(),
        ),
    )
}

#[test]
fn active_extension_capability_allows_persistent_approval_when_manifest_allows() {
    assert_eq!(persistent_verdict(persistent(PermissionMode::Allow)), Some(Ok(())));
}

#[test]
fn active_extension_capability_allows_persistent_approval_when_manifest_asks() {
    assert_eq!(persistent_verdict(persistent(PermissionMode::Ask)), Some(Ok(())));
}

#[test]
fn active_extension_capability_rejects_persistent_approval_when_manifest_denies() {
    assert_eq!(
        persistent_verdict(persistent(PermissionMode::Deny)),
        Some(Err(ApprovalInteractionRejectionKind::AlwaysAllowUnsupported))
    );
}

#[test]
fn outbound_delivery_target_set_allows_persistent_approval() {
    let gate = dispatch(OUTBOUND);
    assert_eq!(
        provider().persistent_approval_allowed(
            &gate,
            &PolicyAnswer::Unasked,
            &SurfaceAnswer::Unasked
        ),
        PersistentStep::AskPolicy
    );
    let policy = PolicyAnswer::Granted {
        approval: LeaseApproval {
            issued_by: Principal::HostRuntime,
            constraints: constraints(Vec::new(), Vec::new()),
        },
    };
    assert_eq!(
        persistent_verdict(provider().persistent_approval_allowed(
            &gate,
            &policy,
            &SurfaceAnswer::Unasked
        )),
        Some(Ok(()))
    );
    assert_eq!(
        provider().persistent_approval_allowed(
            &gate,
            &PolicyAnswer::MissingGrant,
            &SurfaceAnswer::Unasked
        ),
        PersistentStep::AskSurface
    );
    assert_eq!(
        persistent_verdict(provider().persistent_approval_allowed(
            &gate,
            &PolicyAnswer::Failed,
            &SurfaceAnswer::Unasked
        )),
        Some(Err(ApprovalInteractionRejectionKind::LeaseTermsUnavailable))
    );
}

fn descriptor(id: &str, permission: PermissionMode) -> CapabilityDescriptor {
    CapabilityDescriptor {
        id: id.to_string(),
        provider: "notion".to_string(),
        runtime: RuntimeKind::Mcp,
        trust_ceiling: TrustClass::UserTrusted,
        description: "discovered tool".to_string(),
        parameters_schema: "{\"type\":\"object\"}".to_string(),
        effects: vec![EffectKind::DispatchCapability, EffectKind::Network],
        default_permission: permission,
        runtime_credentials: Vec::new(),
        resource_profile: None,
    }
}

#[test]
fn registered_capabilities_are_decided_by_their_permission() {
    let registry = ExtensionRegistry {
        capabilities: vec![
            descriptor("notion.ask", PermissionMode::Ask),
            descriptor("notion.never", PermissionMode::Deny),
        ],
        packages: Vec::new(),
    };
    let provider = LocalDevApprovalLeaseTermsProvider::new(registry, OUTBOUND.to_string());
    let ask = |id: &str| {
        provider.persistent_approval_allowed(
            &dispatch(id),
            &PolicyAnswer::Unasked,
            &SurfaceAnswer::Unasked,
        )
    };
    assert_eq!(ask("notion.ask"), PersistentStep::Allowed);
    assert_eq!(ask("notion.never"), PersistentStep::Refused);
}

#[test]
fn a_persistent_spawn_needs_the_effect() {
    let action = LocalDevApprovalPolicyAction {
        capability: "gmail.send_message".to_string(),
        spawn: true,
    };
    let with = |effects: Vec<EffectKind>| ExtensionSurface {
        capabilities: vec![ActiveCapability {
            id: "gmail.send_message".to_string(),
            effects,
            default_permission: PermissionMode::Allow,
        }],
        grants: Vec::new(),
    };
    assert!(!active_extension_persistent_approval_allowed(
        &action,
        &with(vec![EffectKind::Network])
    ));
    assert!(active_extension_persistent_approval_allowed(
        &action,
        &with(vec![EffectKind::SpawnProcess])
    ));
}

fn discovered_grants(gate: &ApprovalGateRecord) -> DiscoveredAnswer {
    discovered_answer_for(
        gate,
        &DiscoveredCapabilityGrantSource::new(true),
        &vec![descriptor("notion.live-search", PermissionMode::Ask)],
        0,
    )
}

#[test]
fn discovery_is_asked_for_the_hire_of_the_gate() {
    let attached = DiscoveredCapabilityGrantSource::new(true);
    let detached = DiscoveredCapabilityGrantSource::new(false);
    let none = DiscoveredAnswer::Known { grants: Vec::new() };
    let found = vec![
        descriptor("notion.live-search", PermissionMode::Ask),
        descriptor("notion.open", PermissionMode::Allow),
    ];
    let mut gate = dispatch("notion.live-search");
    gate.resource_scope = scope(Some("agent-1"));
    gate.requested_by = Principal::Extension("caller".to_string());
    assert_eq!(
        hire_to_discover_for(&gate, &attached),
        HireScope::from_scope(&scope(Some("agent-1")))
    );
    match discovered_answer_for(&gate, &attached, &found, 7) {
        DiscoveredAnswer::Known { grants } => {
            assert_eq!(grants.len(), 1);
            assert_eq!(grants[0].capability, "notion.live-search");
            assert_eq!(grants[0].grantee, Principal::Extension("caller".to_string()));
            assert_eq!(grants[0].constraints.expires_at, Some(300_000_000_007));
        }
        other => panic!("unexpected answer: {other:?}"),
    }
    assert_eq!(hire_to_discover_for(&gate, &detached), None);
    assert_eq!(discovered_answer_for(&gate, &detached, &found, 7), none);

    gate.requested_by = Principal::HostRuntime;
    assert_eq!(hire_to_discover_for(&gate, &attached), None);
    assert_eq!(discovered_answer_for(&gate, &attached, &found, 7), none);

    gate.requested_by = Principal::Extension("caller".to_string());
    gate.resource_scope = scope(None);
    assert_eq!(hire_to_discover_for(&gate, &attached), None);
    assert_eq!(discovered_answer_for(&gate, &attached, &found, 7), none);
}

#[test]
fn discovered_capability_gets_one_shot_lease_terms() {
    let mut answers = unasked();
    answers.policy = PolicyAnswer::MissingGrant;
    answers.surface = no_surface();
    let gate = dispatch("notion.live-search");
    assert_eq!(provider().lease_terms_for(&gate, &answers), LeaseStep::AskDiscovered);
    answers.discovered = discovered_grants(&gate);
    let approval = granted(provider().lease_terms_for(&gate, &answers));

    assert_eq!(approval.issued_by, Principal::HostRuntime);
    assert_eq!(approval.constraints.max_invocations, Some(1));
    assert_eq!(
        approval.constraints.allowed_effects,
        vec![EffectKind::DispatchCapability, EffectKind::Network]
    );
}

#[test]
fn a_discovered_capability_is_never_spawned() {
    let mut answers = unasked();
    answers.first_surface = no_surface();
    answers.policy = PolicyAnswer::MissingGrant;
    answers.surface = no_surface();
    let gate = spawn("notion.live-search");
    answers.discovered = discovered_grants(&gate);
    assert_eq!(
        provider().lease_terms_for(&gate, &answers),
        unavailable()
    );
}

#[test]
fn unknown_capability_still_fails_lease_terms_unavailable() {
    let mut answers = unasked();
    answers.policy = PolicyAnswer::MissingGrant;
    answers.surface = no_surface();
    answers.discovered = DiscoveredAnswer::Known { grants: Vec::new() };
    assert_eq!(
        provider().lease_terms_for(&dispatch("notion.hallucinated-tool"), &answers),
        unavailable()
    );
}

#[test]
fn an_unreadable_surface_has_no_terms() {
    let mut answers = unasked();
    answers.policy = PolicyAnswer::MissingGrant;
    answers.surface = SurfaceAnswer::Unavailable;
    assert_eq!(provider().lease_terms_for(&dispatch("x.y"), &answers), unavailable());
    let mut host = dispatch("x.y");
    host.requested_by = Principal::HostRuntime;
    assert_eq!(provider().lease_terms_for(&host, &answers), unavailable());
}
