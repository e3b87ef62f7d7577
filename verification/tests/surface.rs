use ironclaw::capability::{
    CapabilityDescriptor, CapabilityVisibility, EffectKind, NetworkPolicy, NetworkTargetPattern,
    PermissionMode, ResourceEstimate, ResourceLimit, ResourceProfile,
    RuntimeCredentialRequirement, RuntimeCredentialRequirementSource, RuntimeCredentialTarget,
    RuntimeKind, TrustClass,
};
use ironclaw::context::{AuthorityCeiling, ExecutionContext, ProviderTrust, TrustDecision};
use ironclaw::grant::{CapabilityGrant, GrantConstraints, MountView, Principal};
use ironclaw::overlay::fanout::{
    discover_overlay_capabilities_for_hire, hosted_packages, HostedMcpOverlayError,
};
use ironclaw::package::{
    CapabilityManifest, ExtensionManifest, ExtensionPackage, ExtensionRuntime, ManifestSource,
};
use ironclaw::registry::ExtensionRegistry;
use ironclaw::scope::{HireScope, ResourceScope};
use ironclaw::surface::assemble::{AnsweredDescriptor, SurfaceBuild, SurfaceStep};
use ironclaw::surface::evaluate::{
    authorization_context, estimate_for, AuthorizationDecision, CapabilityCatalog,
    DescriptorAnswers, SchemaRead, SchemaSource,
};
use ironclaw::surface::policy::CapabilitySurfacePolicy;
use ironclaw::surface::question::{PartialAnswers, Question};
use ironclaw::surface::run::visible_capabilities;
use ironclaw::surface::version::{
    canonical_grants, capability_version_key, context_version_payload, grant_version_payload,
    grant_version_payloads, stable_json_string, surface_version, SurfaceVersionPayload,
};
use ironclaw::surface::{
    access_token, DescriptorSource, HostRuntimeError, VisibleCapability, VisibleCapabilityAccess,
    VisibleCapabilityRequest,
};

const BUILTIN: &str = "builtin";

fn floor_descriptor() -> CapabilityDescriptor {
    let mut descriptor = overlay_capability_descriptor("notion.notion-fetch", "floor capability");
    descriptor.parameters_schema = "{\"$ref\":\"schemas/notion/fetch.input.json\"}".to_string();
    descriptor
}

fn registry_with_hosted_mcp_floor() -> ExtensionRegistry {
    ExtensionRegistry {
        capabilities: vec![floor_descriptor()],
        packages: vec![ExtensionPackage {
            id: "notion".to_string(),
            root: "/system/extensions/notion".to_string(),
            manifest: ExtensionManifest {
                source: ManifestSource::HostBundled,
                runtime: ExtensionRuntime::Mcp {
                    transport: "http".to_string(),
                    command: None,
                    args: Vec::new(),
                    url: Some("https://mcp.notion.com/mcp".to_string()),
                },
                capabilities: vec![CapabilityManifest {
                    id: "notion.notion-fetch".to_string(),
                    visibility: CapabilityVisibility::Model,
                    input_schema_ref: "schemas/notion/fetch.input.json".to_string(),
                }],
            },
            manifest_digest: None,
            capabilities: vec![floor_descriptor()],
            hosted_http_mcp: true,
        }],
    }
}

fn overlay_capability_descriptor(id: &str, description: &str) -> CapabilityDescriptor {
    CapabilityDescriptor {
        id: id.to_string(),
        provider: "notion".to_string(),
        runtime: RuntimeKind::Mcp,
        trust_ceiling: TrustClass::UserTrusted,
        description: description.to_string(),
        parameters_schema: "{\"type\":\"object\"}".to_string(),
        effects: vec![EffectKind::DispatchCapability, EffectKind::Network],
        default_permission: PermissionMode::Ask,
        runtime_credentials: Vec::new(),
        resource_profile: None,
    }
}

fn catalog() -> CapabilityCatalog {
    CapabilityCatalog::new(
        registry_with_hosted_mcp_floor(),
        BUILTIN.to_string(),
        "surface-v1".to_string(),
        "{}".to_string(),
    )
}

fn overlay_request(agent_id: Option<&str>) -> VisibleCapabilityRequest {
    let scope = ResourceScope {
        tenant_id: "acme".to_string(),
        user_id: "buyer-1".to_string(),
        agent_id: agent_id.map(|id| id.to_string()),
        project_id: Some("proj-1".to_string()),
        mission_id: None,
        thread_id: None,
        invocation_id: 9,
    };
    VisibleCapabilityRequest {
        context: ExecutionContext {
            invocation_id: 9,
            correlation_id: 1,
            process_id: None,
            parent_process_id: None,
            tenant_id: scope.tenant_id.clone(),
            user_id: scope.user_id.clone(),
            agent_id: scope.agent_id.clone(),
            project_id: scope.project_id.clone(),
            mission_id: None,
            thread_id: None,
            extension_id: "notion".to_string(),
            runtime: RuntimeKind::Mcp,
            trust: TrustClass::UserTrusted,
            grants: Vec::new(),
            mounts: MountView { mounts: Vec::new() },
            resource_scope: scope,
        },
        surface_kind: "test".to_string(),
        policy: CapabilitySurfacePolicy::allow_all(),
        provider_trust: vec![ProviderTrust {
            provider: "notion".to_string(),
            decision: TrustDecision {
                effective_trust: TrustClass::UserTrusted,
                authority_ceiling: AuthorityCeiling {
                    allowed_effects: vec![EffectKind::Network, EffectKind::DispatchCapability],
                    max_resource_ceiling: None,
                },
            },
        }],
    }
}

fn answers(decision: AuthorizationDecision) -> DescriptorAnswers {
    DescriptorAnswers {
        plannable: true,
        decision,
        builtin_schema: None,
        package_schema: SchemaRead::Text {
            text: "{\"type\":\"object\"}".to_string(),
        },
    }
}

fn allowed() -> DescriptorAnswers {
    answers(AuthorizationDecision::Allow)
}

fn denied() -> DescriptorAnswers {
    answers(AuthorizationDecision::Deny)
}

fn found(id: &str, answers: DescriptorAnswers) -> AnsweredDescriptor {
    AnsweredDescriptor {
        descriptor: overlay_capability_descriptor(id, "discovered tool"),
        answers,
    }
}

fn all_allowed(discovered: Vec<CapabilityDescriptor>) -> Vec<AnsweredDescriptor> {
    discovered
        .into_iter()
        .map(|descriptor| AnsweredDescriptor {
            descriptor,
            answers: allowed(),
        })
        .collect()
}

fn ids(build: &SurfaceBuild) -> Vec<String> {
    build
        .capabilities()
        .iter()
        .map(|capability| capability.descriptor.id.clone())
        .collect()
}

fn run(
    catalog: &CapabilityCatalog,
    request: &VisibleCapabilityRequest,
    floor: DescriptorAnswers,
    discovered: Vec<AnsweredDescriptor>,
) -> SurfaceBuild {
    visible_capabilities(catalog, request, Ok(()), &vec![floor], &discovered).expect("surface")
}

fn version(
    build: &SurfaceBuild,
    catalog: &CapabilityCatalog,
    request: &VisibleCapabilityRequest,
) -> SurfaceVersionPayload {
    build.version(catalog, request, &Vec::new()).expect("version")
}

#[test]
fn builtin_surface_descriptor_requires_input_schema_ref() {
    let descriptor = CapabilityDescriptor {
        id: "builtin.bad".to_string(),
        provider: BUILTIN.to_string(),
        runtime: RuntimeKind::FirstParty,
        trust_ceiling: TrustClass::UserTrusted,
        description: "bad built-in descriptor".to_string(),
        parameters_schema: "{\"type\":\"object\"}".to_string(),
        effects: vec![EffectKind::DispatchCapability],
        default_permission: PermissionMode::Allow,
        runtime_credentials: Vec::new(),
        resource_profile: None,
    };
    let registry = ExtensionRegistry {
        capabilities: Vec::new(),
        packages: Vec::new(),
    };
    let catalog = CapabilityCatalog::new(
        registry,
        BUILTIN.to_string(),
        "surface-v1".to_string(),
        "{}".to_string(),
    );
    let error = catalog
        .surface_descriptor(&descriptor, &allowed())
        .expect_err("built-in schema refs are required");
    assert_eq!(
        error,
        HostRuntimeError::InvalidRequest {
            reason: "built-in capability builtin.bad must publish from an input schema ref"
                .to_string()
        }
    );
}

#[test]
fn builtin_schema_is_resolved_or_unknown() {
    let mut descriptor = overlay_capability_descriptor("builtin.echo", "echo");
    descriptor.provider = BUILTIN.to_string();
    descriptor.parameters_schema = "{\"$ref\":\"schemas/echo.json\"}".to_string();
    let mut known = allowed();
    known.builtin_schema = Some("{\"title\":\"echo\"}".to_string());
    let shown = catalog().surface_descriptor(&descriptor, &known).expect("schema");
    assert_eq!(shown.parameters_schema, "{\"title\":\"echo\"}");
    assert_eq!(
        catalog().surface_descriptor(&descriptor, &allowed()),
        Err(HostRuntimeError::InvalidRequest {
            reason:
                "built-in capability builtin.echo references unknown input schema schemas/echo.json"
                    .to_string()
        })
    );
}

#[test]
fn package_schema_must_be_the_declared_one() {
    let catalog = catalog().with_filesystem();
    assert_eq!(
        catalog.schema_source(&floor_descriptor()),
        Ok(SchemaSource::Package {
            root: "/system/extensions/notion".to_string(),
            reference: "schemas/notion/fetch.input.json".to_string()
        })
    );
    let mut moved = floor_descriptor();
    moved.parameters_schema = "{\"$ref\":\"schemas/other.json\"}".to_string();
    assert_eq!(
        catalog.schema_source(&moved),
        Err(HostRuntimeError::InvalidRequest {
            reason: "capability notion.notion-fetch descriptor schema ref schemas/other.json does not match manifest input schema ref schemas/notion/fetch.input.json"
                .to_string()
        })
    );
    let mut undeclared = moved.clone();
    undeclared.id = "notion.unknown".to_string();
    assert_eq!(
        catalog.schema_source(&undeclared),
        Err(HostRuntimeError::InvalidRequest {
            reason: "capability notion.unknown is missing manifest declaration".to_string()
        })
    );
    let mut foreign = moved.clone();
    foreign.provider = "elsewhere".to_string();
    assert_eq!(catalog.schema_source(&foreign), Ok(SchemaSource::Inline));
}

#[test]
fn a_reference_that_is_no_string_is_inline() {
    let catalog = catalog().with_filesystem();
    let mut descriptor = floor_descriptor();
    descriptor.parameters_schema = "{\"$ref\":7}".to_string();
    assert_eq!(catalog.schema_source(&descriptor), Ok(SchemaSource::Inline));
    descriptor.parameters_schema = "[\"$ref\"]".to_string();
    assert_eq!(catalog.schema_source(&descriptor), Ok(SchemaSource::Inline));
}

#[test]
fn visible_capabilities_none_agent_turn_serves_floor_only_and_never_calls_overlay() {
    let catalog = catalog().with_hosted_mcp_overlay();
    let request = overlay_request(None);
    let surface = run(&catalog, &request, allowed(), vec![found("notion.live-search", allowed())]);
    assert_eq!(ids(&surface), vec!["notion.notion-fetch"]);

    let mut build = SurfaceBuild::start(&catalog, &request, Ok(())).expect("start");
    let mut discoveries = 0;
    loop {
        match build.next_step() {
            SurfaceStep::Evaluate { .. } => {
                build.evaluated(&catalog, &request, &allowed()).expect("evaluated")
            }
            SurfaceStep::Discover => {
                discoveries += 1;
                build.discovered(Vec::new());
            }
            SurfaceStep::Finish => break,
        }
    }
    assert_eq!(discoveries, 0, "a None-agent turn must never call hosted-MCP discovery");
}

#[test]
fn visible_capabilities_unions_overlay_with_floor_and_floor_wins_id_collisions() {
    let catalog = catalog().with_hosted_mcp_overlay();
    let request = overlay_request(Some("agent-1"));
    let surface = run(
        &catalog,
        &request,
        allowed(),
        vec![
            AnsweredDescriptor {
                descriptor: overlay_capability_descriptor(
                    "notion.notion-fetch",
                    "overlay collision",
                ),
                answers: allowed(),
            },
            found("notion.live-search", allowed()),
        ],
    );

    assert_eq!(ids(&surface), vec!["notion.notion-fetch", "notion.live-search"]);
    assert_eq!(
        surface.capabilities()[0].descriptor.description,
        "floor capability",
        "floor descriptor must win the id collision, not the overlay's"
    );
}

#[test]
fn visible_capabilities_drops_ungranted_discovered_tool_instead_of_a_phantom_askable_entry() {
    let catalog = catalog().with_hosted_mcp_overlay();
    let surface = run(
        &catalog,
        &overlay_request(Some("agent-1")),
        allowed(),
        vec![found("notion.live-search", denied())],
    );

    assert_eq!(ids(&surface), vec!["notion.notion-fetch"]);
}

#[test]
fn surface_version_is_stable_across_an_overlay_discovery_health_flip() {
    let catalog = catalog().with_hosted_mcp_overlay();
    let request = overlay_request(Some("agent-1"));
    let healthy = run(&catalog, &request, allowed(), vec![found("notion.live-search", allowed())]);
    assert_eq!(healthy.capabilities().len(), 2);
    let degraded = run(&catalog, &request, allowed(), Vec::new());
    assert_eq!(degraded.capabilities().len(), 1);

    assert_eq!(
        version(&healthy, &catalog, &request),
        version(&degraded, &catalog, &request),
        "the version must not flip when only the overlay-discovered set changes"
    );
    let withdrawn = run(&catalog, &request, denied(), Vec::new());
    assert_ne!(
        version(&withdrawn, &catalog, &request),
        version(&degraded, &catalog, &request),
        "a change of the floor is a change of the version"
    );
}

#[test]
fn visible_capabilities_still_drops_ungranted_floor_capability() {
    let catalog = catalog().with_hosted_mcp_overlay();
    let surface = run(&catalog, &overlay_request(Some("agent-1")), denied(), Vec::new());

    assert!(surface.capabilities().is_empty());
}

#[test]
fn visible_capabilities_falls_back_to_floor_when_overlay_discovery_fails() {
    let catalog = catalog().with_hosted_mcp_overlay();
    let discovered = discover_overlay_capabilities_for_hire(
        &catalog.registry,
        Some(vec![Err(HostedMcpOverlayError::Transient(
            "simulated backend failure".to_string(),
        ))]),
    );
    let surface = run(
        &catalog,
        &overlay_request(Some("agent-1")),
        allowed(),
        all_allowed(discovered),
    );

    assert_eq!(surface.capabilities().len(), 1);
    assert_eq!(ids(&surface), vec!["notion.notion-fetch"]);
}

#[test]
fn visible_capabilities_falls_back_to_floor_when_overlay_discovery_exceeds_budget() {
    let catalog = catalog().with_hosted_mcp_overlay();
    let discovered = discover_overlay_capabilities_for_hire(&catalog.registry, None);
    let surface = run(
        &catalog,
        &overlay_request(Some("agent-1")),
        allowed(),
        all_allowed(discovered),
    );

    assert_eq!(surface.capabilities().len(), 1);
    assert_eq!(ids(&surface), vec!["notion.notion-fetch"]);
}

#[test]
fn visible_capabilities_omits_overlay_when_no_overlay_is_attached() {
    let surface = run(
        &catalog(),
        &overlay_request(Some("agent-1")),
        allowed(),
        vec![found("notion.live-search", allowed())],
    );

    assert_eq!(surface.capabilities().len(), 1);
}

#[test]
fn visible_capabilities_omits_overlay_descriptor_with_unresolvable_ref_instead_of_failing_the_turn()
{
    let catalog = catalog().with_filesystem().with_hosted_mcp_overlay();
    let mut malformed = found("notion.live-search", allowed());
    malformed.descriptor.parameters_schema =
        "{\"$ref\": \"schemas/notion/dynamic/live-search.input.v1.json\"}".to_string();
    let surface = run(
        &catalog,
        &overlay_request(Some("agent-1")),
        allowed(),
        vec![malformed],
    );

    assert_eq!(ids(&surface), vec!["notion.notion-fetch"]);
    assert_eq!(
        surface.capabilities()[0].descriptor.parameters_schema,
        "{\"type\":\"object\"}"
    );
}

#[test]
fn an_unreadable_floor_schema_fails_the_surface() {
    let catalog = catalog().with_filesystem();
    let mut unreadable = allowed();
    unreadable.package_schema = SchemaRead::Failed {
        error: HostRuntimeError::Failed {
            reason: "disk".to_string(),
        },
    };
    let error = visible_capabilities(
        &catalog,
        &overlay_request(None),
        Ok(()),
        &vec![unreadable],
        &Vec::new(),
    )
    .expect_err("floor schema");
    assert_eq!(
        error,
        HostRuntimeError::Failed {
            reason: "disk".to_string()
        }
    );
}

#[test]
fn an_invalid_context_fails_the_request() {
    let error = visible_capabilities(
        &catalog(),
        &overlay_request(None),
        Err("tenant mismatch".to_string()),
        &vec![allowed()],
        &Vec::new(),
    )
    .expect_err("context");
    assert_eq!(
        error,
        HostRuntimeError::InvalidRequest {
            reason: "invalid execution context: tenant mismatch".to_string()
        }
    );
}

#[test]
fn limits_cut_the_surface_and_zero_asks_nothing() {
    let catalog = catalog().with_hosted_mcp_overlay();
    let mut request = overlay_request(Some("agent-1"));
    request.policy.max_capabilities = Some(1);
    let surface = run(&catalog, &request, allowed(), vec![found("notion.live-search", allowed())]);
    assert_eq!(ids(&surface), vec!["notion.notion-fetch"]);

    request.policy.max_capabilities = Some(0);
    let mut build = SurfaceBuild::start(&catalog, &request, Ok(())).expect("start");
    assert_eq!(build.next_step(), SurfaceStep::Finish);
    assert!(build.capabilities().is_empty());
}

#[test]
fn duplicates_among_discovered_tools_are_both_shown() {
    let catalog = catalog().with_hosted_mcp_overlay();
    let request = overlay_request(Some("agent-1"));
    let surface = run(
        &catalog,
        &request,
        allowed(),
        vec![found("notion.x", allowed()), found("notion.x", allowed())],
    );
    assert_eq!(ids(&surface), vec!["notion.notion-fetch", "notion.x", "notion.x"]);
}

#[test]
fn questions_are_asked_in_order_and_only_as_needed() {
    let catalog = catalog().with_filesystem();
    let request = overlay_request(None);
    let mut known = PartialAnswers::none();
    assert_eq!(catalog.question(&request, &floor_descriptor(), &known), Question::Plan);
    known.plannable = Some(true);
    assert_eq!(
        catalog.question(&request, &floor_descriptor(), &known),
        Question::Authorize {
            trust: request.provider_trust[0].decision.clone(),
            estimate: ResourceEstimate::default()
        }
    );
    known.decision = Some(AuthorizationDecision::Allow);
    assert_eq!(
        catalog.question(&request, &floor_descriptor(), &known),
        Question::PackageSchema {
            root: "/system/extensions/notion".to_string(),
            reference: "schemas/notion/fetch.input.json".to_string()
        }
    );
    known.package_schema = Some(SchemaRead::Text {
        text: "{}".to_string(),
    });
    assert_eq!(catalog.question(&request, &floor_descriptor(), &known), Question::Nothing);
    let shown = catalog
        .evaluate_descriptor(
            &floor_descriptor(),
            DescriptorSource::Floor,
            &request,
            &known.complete(),
        )
        .expect("evaluation")
        .expect("shown");
    assert_eq!(shown.descriptor.parameters_schema, "{}");

    let mut narrow = overlay_request(None);
    narrow.policy.allowed_effects = vec![EffectKind::Network];
    assert_eq!(
        catalog.question(&narrow, &floor_descriptor(), &PartialAnswers::none()),
        Question::Nothing,
        "every effect has to be admitted"
    );
    let mut untrusted = overlay_request(None);
    untrusted.provider_trust = Vec::new();
    let mut planned = PartialAnswers::none();
    planned.plannable = Some(true);
    assert_eq!(
        catalog.question(&untrusted, &floor_descriptor(), &planned),
        Question::Nothing
    );
}

#[test]
fn approval_is_shown_only_if_the_policy_includes_it() {
    let request = overlay_request(None);
    let askable = answers(AuthorizationDecision::RequireApproval);
    let shown = catalog()
        .evaluate_descriptor(&floor_descriptor(), DescriptorSource::Floor, &request, &askable)
        .expect("evaluation")
        .expect("askable");
    assert_eq!(shown.access, VisibleCapabilityAccess::RequiresApproval);
    let mut strict = overlay_request(None);
    strict.policy.include_requires_approval = false;
    assert_eq!(
        catalog().evaluate_descriptor(
            &floor_descriptor(),
            DescriptorSource::Floor,
            &strict,
            &askable
        ),
        Ok(None)
    );
    assert_eq!(access_token(VisibleCapabilityAccess::Available), "available");
    assert_eq!(access_token(VisibleCapabilityAccess::RequiresApproval), "requires_approval");
}

#[test]
fn host_internal_capabilities_are_never_shown() {
    let mut hidden = catalog();
    hidden.registry.packages[0].manifest.capabilities[0].visibility =
        CapabilityVisibility::HostInternal;
    assert_eq!(
        hidden.evaluate_descriptor(
            &floor_descriptor(),
            DescriptorSource::Floor,
            &overlay_request(None),
            &allowed()
        ),
        Ok(None)
    );
}

#[test]
fn authorization_runs_with_the_trust_of_the_provider() {
    let mut request = overlay_request(None);
    request.provider_trust[0].decision.effective_trust = TrustClass::Sandbox;
    let context = authorization_context(&request, &request.provider_trust[0].decision);
    assert_eq!(context.trust, TrustClass::Sandbox);
    assert_eq!(context.tenant_id, "acme");
    let mut profiled = floor_descriptor();
    profiled.resource_profile = Some(ResourceProfile {
        default_estimate: ResourceEstimate {
            network_egress_bytes: Some(5),
            limits: vec![ResourceLimit {
                name: "wall".to_string(),
                amount: 1,
            }],
        },
    });
    assert_eq!(estimate_for(&profiled).network_egress_bytes, Some(5));
    assert_eq!(estimate_for(&floor_descriptor()), ResourceEstimate::default());
}

#[test]
fn default_policy_shows_nothing() {
    let policy = CapabilitySurfacePolicy::default();
    assert!(!policy.allows_runtime(RuntimeKind::Mcp));
    assert!(!policy.allows_effects(&vec![EffectKind::Network]));
    assert!(policy.allows_effects(&Vec::new()));
    assert_eq!(CapabilitySurfacePolicy::allow_all().allowed_effects.len(), 13);
    assert_eq!(CapabilitySurfacePolicy::allow_all().limit(), usize::MAX);
}

#[test]
fn version_takes_tokens_in_canonical_order() {
    let catalog = catalog();
    let mut request = overlay_request(None);
    request.policy.allowed_runtimes =
        vec![RuntimeKind::Mcp, RuntimeKind::FirstParty, RuntimeKind::Mcp];
    let surface = run(&catalog, &request, allowed(), Vec::new());
    let payload = version(&surface, &catalog, &request);
    assert_eq!(payload.base_version, "surface-v1");
    assert_eq!(payload.surface_kind, "test");
    assert_eq!(payload.policy.allowed_runtimes, vec!["first_party", "mcp"]);
    assert_eq!(payload.capabilities.len(), 1);
    assert_eq!(payload.capabilities[0].access, "available");
    let trust = payload.capabilities[0].provider_trust.clone().expect("trust");
    assert_eq!(trust.allowed_effects, vec!["dispatch_capability", "network"]);

    let mut reordered = request.clone();
    reordered.policy.allowed_runtimes = vec![RuntimeKind::FirstParty, RuntimeKind::Mcp];
    let again = run(&catalog, &reordered, allowed(), Vec::new());
    assert_eq!(version(&again, &catalog, &reordered), payload);
}

#[test]
fn version_key_is_id_provider_runtime_and_access() {
    let capability = VisibleCapability {
        descriptor: floor_descriptor(),
        access: VisibleCapabilityAccess::RequiresApproval,
        estimated_resources: ResourceEstimate::default(),
    };
    assert_eq!(
        capability_version_key(&capability),
        vec!["notion.notion-fetch", "notion", "mcp", "requires_approval"]
    );
}

#[test]
fn grants_are_ordered_by_their_stable_text() {
    assert_eq!(
        stable_json_string(&" {\"a\":[1,2],\"b\":1}\n".to_string()),
        Ok("{\"a\":[1,2],\"b\":1}".to_string())
    );
    let ordered = canonical_grants(&vec![
        Ok("{\"capability\":\"z\"}".to_string()),
        Ok("{\"capability\":\"a\"}".to_string()),
    ])
    .expect("grants");
    assert_eq!(ordered, vec!["{\"capability\":\"a\"}", "{\"capability\":\"z\"}"]);
    assert_eq!(
        canonical_grants(&vec![Err("no canonical form".to_string())]),
        Err(HostRuntimeError::InvalidRequest {
            reason: "no canonical form".to_string()
        })
    );
    assert!(canonical_grants(&vec![Ok("not json".to_string())]).is_err());
}

fn grant(capability: &str) -> CapabilityGrant {
    CapabilityGrant {
        capability: capability.to_string(),
        grantee: Principal::Extension("loop-driver".to_string()),
        issued_by: Principal::HostRuntime,
        constraints: GrantConstraints {
            allowed_effects: vec![EffectKind::UseSecret, EffectKind::Network],
            mounts: MountView { mounts: Vec::new() },
            network: NetworkPolicy {
                allowed_targets: Vec::new(),
                deny_private_ip_ranges: true,
                max_egress_bytes: None,
            },
            secrets: vec!["one".to_string(), "two".to_string()],
            resource_ceiling: None,
            expires_at: Some(5),
            max_invocations: Some(1),
        },
    }
}

#[test]
fn grant_payload_counts_secrets_and_names_none() {
    let payload = grant_version_payload(&grant("notion.notion-fetch"));
    assert_eq!(payload.capability, "notion.notion-fetch");
    assert_eq!(payload.secret_count, 2);
    assert_eq!(payload.allowed_effects, vec!["network", "use_secret"]);
    assert_eq!(payload.expires_at, Some(5));
}

#[test]
fn fan_out_merges_the_packages_that_answered() {
    let mut registry = registry_with_hosted_mcp_floor();
    let mut plain = registry.packages[0].clone();
    plain.id = "plain".to_string();
    plain.hosted_http_mcp = false;
    let mut second = registry.packages[0].clone();
    second.id = "second".to_string();
    registry.packages.push(plain);
    registry.packages.push(second);
    let hosted: Vec<String> = hosted_packages(&registry).into_iter().map(|p| p.id).collect();
    assert_eq!(hosted, vec!["notion", "second"]);
    let discovered = discover_overlay_capabilities_for_hire(
        &registry,
        Some(vec![
            Err(HostedMcpOverlayError::Permanent("gone".to_string())),
            Ok(vec![overlay_capability_descriptor("second.x", "x")]),
        ]),
    );
    assert_eq!(discovered.len(), 1);
    assert_eq!(discovered[0].id, "second.x");
}

#[test]
fn version_ignores_the_order_of_capabilities() {
    let catalog = catalog();
    let request = overlay_request(Some("agent-1"));
    let shown = |id: &str| VisibleCapability {
        descriptor: overlay_capability_descriptor(id, "tool"),
        access: VisibleCapabilityAccess::Available,
        estimated_resources: ResourceEstimate::default(),
    };
    let forward = surface_version(
        &catalog,
        &request,
        &Vec::new(),
        &vec![shown("a.one"), shown("b.two"), shown("c.three")],
        &vec!["b.two".to_string()],
    )
    .expect("version");
    let backward = surface_version(
        &catalog,
        &request,
        &Vec::new(),
        &vec![shown("c.three"), shown("b.two"), shown("a.one")],
        &vec!["b.two".to_string()],
    )
    .expect("version");
    assert_eq!(forward, backward);
    assert_eq!(forward.version, 1);
    assert_eq!(forward.kind, "visible_capability_surface");
    assert_eq!(forward.capabilities.len(), 2);
    assert_eq!(forward.capabilities[0].descriptor.id, "a.one");
    assert_eq!(forward.capabilities[1].descriptor.id, "c.three");
}

#[test]
fn version_ignores_the_order_of_grants() {
    let first: Result<String, String> = Ok("{\"capability\":\"a\"}".to_string());
    let second: Result<String, String> = Ok("{\"capability\":\"b\"}".to_string());
    assert_eq!(
        canonical_grants(&vec![first.clone(), second.clone()]),
        canonical_grants(&vec![second, first])
    );
}

#[test]
fn a_limit_takes_the_first_entries() {
    let catalog = catalog().with_hosted_mcp_overlay();
    let discovered = || vec![found("notion.one", allowed()), found("notion.two", allowed())];
    let full = run(&catalog, &overlay_request(Some("agent-1")), allowed(), discovered());
    assert_eq!(ids(&full), vec!["notion.notion-fetch", "notion.one", "notion.two"]);
    for limit in 0..5usize {
        let mut request = overlay_request(Some("agent-1"));
        request.policy.max_capabilities = Some(limit);
        let cut = run(&catalog, &request, allowed(), discovered());
        let wanted: Vec<String> = ids(&full).into_iter().take(limit).collect();
        assert_eq!(ids(&cut), wanted);
    }
}

#[test]
fn version_ignores_order_and_what_belongs_to_one_invocation() {
    let catalog = catalog();
    let mut left = overlay_request(Some("agent-1"));
    let mut right = overlay_request(Some("agent-1"));
    right.policy.allowed_runtimes.reverse();
    right.policy.allowed_effects.reverse();
    right.policy.allowed_effects.push(EffectKind::Network);
    right.context.invocation_id = 77;
    right.context.correlation_id = 78;
    right.context.resource_scope.invocation_id = 77;
    let shown = |id: &str| VisibleCapability {
        descriptor: overlay_capability_descriptor(id, "tool"),
        access: VisibleCapabilityAccess::Available,
        estimated_resources: ResourceEstimate::default(),
    };
    left.context.grants = vec![grant("a.one"), grant("b.two")];
    right.context.grants = vec![grant("b.two"), grant("a.one")];
    let canonical = |request: &VisibleCapabilityRequest| {
        grant_version_payloads(request)
            .iter()
            .map(|payload| Ok(format!("{{\"capability\":\"{}\"}}", payload.capability)))
            .collect::<Vec<Result<String, String>>>()
    };
    let version = surface_version(
        &catalog,
        &left,
        &canonical(&left),
        &vec![shown("a.one"), shown("b.two")],
        &Vec::new(),
    );
    assert_eq!(
        version.as_ref().expect("version").context.grants,
        vec!["{\"capability\":\"a.one\"}", "{\"capability\":\"b.two\"}"]
    );
    assert_eq!(
        version,
        surface_version(
            &catalog,
            &right,
            &canonical(&right),
            &vec![shown("b.two"), shown("a.one")],
            &Vec::new(),
        )
    );
}

#[test]
fn a_grant_without_a_canonical_form_fails_the_version() {
    let catalog = catalog();
    let mut request = overlay_request(Some("agent-1"));
    request.context.grants = vec![grant("a.one")];
    let canonical = vec![Err("no canonical form".to_string())];
    let error = HostRuntimeError::InvalidRequest {
        reason: "no canonical form".to_string(),
    };
    assert_eq!(context_version_payload(&request, &canonical), Err(error.clone()));
    assert_eq!(
        surface_version(&catalog, &request, &canonical, &Vec::new(), &Vec::new()),
        Err(error.clone())
    );
    let build = SurfaceBuild::start(&catalog, &request, Ok(())).expect("build");
    assert_eq!(build.version(&catalog, &request, &canonical), Err(error));
}

/// A JSON array of the given depth.
fn nested(depth: usize) -> String {
    format!("{}{}", "[".repeat(depth), "]".repeat(depth))
}

#[test]
fn a_deeply_nested_schema_keeps_its_reference() {
    let mut descriptor = overlay_capability_descriptor("builtin.echo", "echo");
    descriptor.provider = BUILTIN.to_string();
    descriptor.parameters_schema = format!(
        "{{\"$ref\":\"schemas/echo.json\",\"default\":{}}}",
        nested(5000)
    );
    assert_eq!(
        catalog().schema_source(&descriptor),
        Ok(SchemaSource::Builtin {
            reference: "schemas/echo.json".to_string()
        })
    );
    let absent = |schema: &str| {
        let mut descriptor = descriptor.clone();
        descriptor.parameters_schema = schema.to_string();
        catalog().schema_source(&descriptor).is_err()
    };
    assert!(absent("{\"$ref\":7}"));
    assert!(absent("[\"$ref\"]"));
    assert!(absent("{\"other\":{\"$ref\":\"schemas/echo.json\"}}"));
    assert!(absent("\"$ref\""));
}

#[test]
fn a_deeply_nested_value_has_a_stable_text() {
    let deep = format!("{{\"resource_ceiling\":{}}}", nested(5000));
    assert_eq!(stable_json_string(&deep), Ok(deep.clone()));
    assert!(stable_json_string(&nested(5000)[1..].to_string()).is_err());
}

#[test]
fn discovery_is_asked_for_the_hire_of_the_request() {
    let request = overlay_request(Some("agent-1"));
    let attached = catalog().with_hosted_mcp_overlay();
    assert_eq!(
        attached.hire_to_discover(&request),
        HireScope::from_scope(&request.context.resource_scope)
    );
    assert!(attached.hire_to_discover(&request).is_some());
    assert_eq!(attached.hire_to_discover(&overlay_request(None)), None);
    assert_eq!(catalog().hire_to_discover(&request), None);
}

#[test]
fn version_tells_credential_sources_and_scopes_apart() {
    let catalog = catalog();
    let request = overlay_request(Some("agent-1"));
    let version = |source: RuntimeCredentialRequirementSource, scopes: Vec<String>| {
        let mut descriptor = overlay_capability_descriptor("a.one", "tool");
        descriptor.runtime_credentials = vec![RuntimeCredentialRequirement {
            handle: "token".to_string(),
            source,
            provider_scopes: scopes,
            audience: NetworkTargetPattern {
                scheme: None,
                host_pattern: "a.example".to_string(),
                port: None,
            },
            target: RuntimeCredentialTarget::Header {
                name: "authorization".to_string(),
                prefix: None,
            },
            required: true,
        }];
        surface_version(
            &catalog,
            &request,
            &Vec::new(),
            &vec![VisibleCapability {
                descriptor,
                access: VisibleCapabilityAccess::Available,
                estimated_resources: ResourceEstimate::default(),
            }],
            &Vec::new(),
        )
    };
    let account = || RuntimeCredentialRequirementSource::ProductAuthAccount {
        provider: "notion".to_string(),
        setup: String::new(),
    };
    let secret = || RuntimeCredentialRequirementSource::SecretHandle;
    assert_eq!(version(account(), Vec::new()), version(account(), Vec::new()));
    assert_ne!(version(account(), Vec::new()), version(secret(), Vec::new()));
    assert_ne!(
        version(account(), Vec::new()),
        version(account(), vec!["read".to_string()])
    );
}
