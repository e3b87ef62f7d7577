use ironclaw::capability::{
    CapabilityDescriptor, CapabilityVisibility, EffectKind, NetworkScheme, NetworkTargetPattern,
    PermissionMode, RuntimeCredentialRequirement, RuntimeCredentialRequirementSource, RuntimeCredentialSource, RuntimeCredentialTarget,
    RuntimeKind, TrustClass,
};
use ironclaw::mcp::discovery::{
    check_discoverable, discover_hosted_mcp_package, discovered_package, discovered_tools,
    discovery_request, HostedMcpDiscoveryError,
};
use ironclaw::mcp::endpoint::{
    hosted_http_mcp_endpoint, hosted_mcp_network_policy, hosted_mcp_url_allowed,
    normalize_mcp_path, HostedMcpEndpoint,
};
use ironclaw::mcp::planner::{
    McpHostHttpEgressPlan, McpHostHttpEgressPlanRequest, RegistryMcpEgressPlanner,
    MCP_RESPONSE_BODY_LIMIT, MCP_TIMEOUT_MS,
};
use ironclaw::package::{
    CapabilityManifest, ExtensionManifest, ExtensionPackage, ExtensionRuntime, ManifestSource,
};
use ironclaw::registry::ExtensionRegistry;
use ironclaw::scope::ResourceScope;
use ironclaw::web::UrlParts;

const NOTION_MCP_HOST: &str = "mcp.notion.com";
const NOTION_MCP_URL: &str = "https://mcp.notion.com/mcp";

fn credential(handle: &str, audience_host: &str) -> RuntimeCredentialRequirement {
    RuntimeCredentialRequirement {
        handle: handle.to_string(),
        source: RuntimeCredentialRequirementSource::ProductAuthAccount {
            provider: "notion".to_string(),
            setup: String::new(),
        },
        provider_scopes: Vec::new(),
        audience: NetworkTargetPattern {
            scheme: Some(NetworkScheme::Https),
            host_pattern: audience_host.to_string(),
            port: None,
        },
        target: RuntimeCredentialTarget::Header {
            name: "authorization".to_string(),
            prefix: Some("Bearer ".to_string()),
        },
        required: true,
    }
}

fn package(provider: &str, url: &str, capability_id: &str) -> ExtensionPackage {
    ExtensionPackage {
        id: provider.to_string(),
        root: format!("/system/extensions/{provider}"),
        manifest: ExtensionManifest {
            source: ManifestSource::HostBundled,
            runtime: ExtensionRuntime::Mcp {
                transport: "http".to_string(),
                command: None,
                args: Vec::new(),
                url: Some(url.to_string()),
            },
            capabilities: vec![CapabilityManifest {
                id: capability_id.to_string(),
                visibility: CapabilityVisibility::Model,
                input_schema_ref: "schemas/notion/notion-search.input.v1.json".to_string(),
            }],
        },
        manifest_digest: None,
        capabilities: Vec::new(),
        hosted_http_mcp: true,
    }
}

fn registry_with_provider(
    provider: &str,
    url: &str,
    host: &str,
    capability_id: &str,
    credential_handle: &str,
) -> ExtensionRegistry {
    ExtensionRegistry {
        capabilities: vec![CapabilityDescriptor {
            id: capability_id.to_string(),
            provider: provider.to_string(),
            runtime: RuntimeKind::Mcp,
            trust_ceiling: TrustClass::Sandbox,
            description: "Search".to_string(),
            parameters_schema: "{\"$ref\":\"schemas/notion/notion-search.input.v1.json\"}"
                .to_string(),
            effects: vec![
                EffectKind::DispatchCapability,
                EffectKind::Network,
                EffectKind::UseSecret,
            ],
            default_permission: PermissionMode::Allow,
            runtime_credentials: vec![credential(credential_handle, host)],
            resource_profile: None,
        }],
        packages: vec![package(provider, url, capability_id)],
    }
}

fn notion_planner() -> RegistryMcpEgressPlanner {
    RegistryMcpEgressPlanner::new(registry_with_provider(
        "notion",
        NOTION_MCP_URL,
        NOTION_MCP_HOST,
        "notion.notion-search",
        "mcp_notion_access_token",
    ))
}

fn notion_endpoint() -> HostedMcpEndpoint {
    HostedMcpEndpoint::parse(NOTION_MCP_URL).expect("endpoint")
}

fn plan_request(
    provider: &str,
    capability_id: &str,
    url: &str,
    runtime_credentials: Vec<RuntimeCredentialRequirement>,
) -> McpHostHttpEgressPlanRequest {
    McpHostHttpEgressPlanRequest {
        provider: provider.to_string(),
        capability_id: capability_id.to_string(),
        url: url.to_string(),
        runtime_credentials,
    }
}

fn is_header(target: &RuntimeCredentialTarget) -> bool {
    matches!(target, RuntimeCredentialTarget::Header { .. })
}

#[test]
fn mcp_planner_projects_manifest_runtime_credentials_to_staged_injections() {
    let capability_id = "notion.notion-search".to_string();
    let injections = notion_planner().credential_injections(
        &"notion".to_string(),
        &capability_id,
        &notion_endpoint(),
        &Vec::new(),
    );

    assert_eq!(injections.len(), 1);
    assert_eq!(injections[0].handle, "mcp_notion_access_token");
    assert_eq!(
        injections[0].source,
        RuntimeCredentialSource::StagedObligation { capability_id }
    );
    assert!(is_header(&injections[0].target));
}

#[test]
fn mcp_planner_falls_back_to_request_credentials_when_capability_absent_from_registry() {
    let discovered = "notion.echo-broker-test__echo_ping".to_string();
    let injections = notion_planner().credential_injections(
        &"notion".to_string(),
        &discovered,
        &notion_endpoint(),
        &vec![
            credential("mcp_notion_access_token", NOTION_MCP_HOST),
            credential("wrong_audience_token", "other.example.com"),
        ],
    );

    assert_eq!(injections.len(), 1);
    assert_eq!(injections[0].handle, "mcp_notion_access_token");
    assert_eq!(
        injections[0].source,
        RuntimeCredentialSource::StagedObligation { capability_id: discovered }
    );
    assert!(is_header(&injections[0].target));
    assert!(injections[0].required);
}

#[test]
fn mcp_planner_registry_hit_overrides_request_credentials() {
    let injections = notion_planner().credential_injections(
        &"notion".to_string(),
        &"notion.notion-search".to_string(),
        &notion_endpoint(),
        &vec![credential("request_only_token", NOTION_MCP_HOST)],
    );

    assert_eq!(injections.len(), 1);
    assert_eq!(
        injections[0].handle, "mcp_notion_access_token",
        "registry descriptor must remain authoritative on a hit"
    );
}

#[test]
fn mcp_planner_absent_from_registry_and_request_yields_no_injections() {
    let injections = notion_planner().credential_injections(
        &"notion".to_string(),
        &"notion.echo-broker-test__echo_ping".to_string(),
        &notion_endpoint(),
        &Vec::new(),
    );

    assert!(injections.is_empty());
}

#[test]
fn mcp_planner_falls_back_to_request_credentials_on_provider_mismatch() {
    let injections = notion_planner().credential_injections(
        &"not-notion".to_string(),
        &"notion.notion-search".to_string(),
        &notion_endpoint(),
        &vec![credential("fallback_only_token", NOTION_MCP_HOST)],
    );

    assert_eq!(injections.len(), 1);
    assert_eq!(
        injections[0].handle, "fallback_only_token",
        "provider mismatch on a registry hit must fall through to request credentials"
    );
}

#[test]
fn mcp_planner_fallback_injects_all_audience_matching_request_credentials() {
    let injections = notion_planner().credential_injections(
        &"notion".to_string(),
        &"notion.echo-broker-test__echo_ping".to_string(),
        &notion_endpoint(),
        &vec![
            credential("mcp_notion_access_token", NOTION_MCP_HOST),
            credential("mcp_notion_secondary_token", NOTION_MCP_HOST),
            credential("wrong_audience_token", "other.example.com"),
        ],
    );

    let handles: Vec<String> = injections.iter().map(|i| i.handle.clone()).collect();
    assert_eq!(injections.len(), 2, "both matching-audience creds inject");
    assert!(handles.contains(&"mcp_notion_access_token".to_string()));
    assert!(handles.contains(&"mcp_notion_secondary_token".to_string()));
    assert!(
        !handles.contains(&"wrong_audience_token".to_string()),
        "non-matching-audience credential must be dropped"
    );
}

#[test]
fn planner_injects_request_credentials_for_discovered_capability_via_plan() {
    let plan = notion_planner().plan(&plan_request(
        "notion",
        "notion.echo-broker-test__echo_ping",
        NOTION_MCP_URL,
        vec![credential("mcp_notion_access_token", NOTION_MCP_HOST)],
    ));

    assert_eq!(plan.credential_injections.len(), 1);
    assert_eq!(plan.credential_injections[0].handle, "mcp_notion_access_token");
    assert_eq!(plan.network_policy.allowed_targets[0].host_pattern, NOTION_MCP_HOST);
}

#[test]
fn planner_denies_unknown_provider() {
    let plan = notion_planner().plan(&plan_request(
        "not-notion",
        "notion.notion-search",
        "https://mcp.notion.com/mcp",
        Vec::new(),
    ));

    assert!(plan.credential_injections.is_empty());
    assert!(plan.network_policy.allowed_targets.is_empty());
}

#[test]
fn planner_accepts_any_host_bundled_http_mcp_provider() {
    let planner = RegistryMcpEgressPlanner::new(registry_with_provider(
        "fixture",
        "https://fixture.example.com/mcp",
        "fixture.example.com",
        "fixture.search",
        "fixture_token",
    ));
    let plan = planner.plan(&plan_request(
        "fixture",
        "fixture.search",
        "https://fixture.example.com/mcp",
        Vec::new(),
    ));

    assert_eq!(plan.credential_injections.len(), 1);
    assert_eq!(plan.network_policy.allowed_targets[0].host_pattern, "fixture.example.com");
}

#[test]
fn planner_denies_wrong_host_for_notion_provider() {
    let plan = notion_planner().plan(&plan_request(
        "notion",
        "notion.notion-search",
        "https://evil.example.com/mcp",
        Vec::new(),
    ));

    assert!(plan.credential_injections.is_empty());
    assert!(plan.network_policy.allowed_targets.is_empty());
}

#[test]
fn planner_denies_http_scheme_for_notion_provider() {
    let plan = notion_planner().plan(&plan_request(
        "notion",
        "notion.notion-search",
        "http://mcp.notion.com/mcp",
        Vec::new(),
    ));

    assert!(plan.credential_injections.is_empty());
}

#[test]
fn planner_denies_wrong_path_for_notion_provider() {
    let plan = notion_planner().plan(&plan_request(
        "notion",
        "notion.notion-search",
        "https://mcp.notion.com/other",
        Vec::new(),
    ));

    assert!(plan.credential_injections.is_empty());
}

#[test]
fn planner_emits_locked_policy_for_notion_provider() {
    let plan = notion_planner().plan(&plan_request(
        "notion",
        "notion.notion-search",
        "https://mcp.notion.com/mcp",
        Vec::new(),
    ));

    assert_eq!(plan.credential_injections.len(), 1);
    assert!(plan.network_policy.deny_private_ip_ranges);
    assert_eq!(plan.network_policy.allowed_targets.len(), 1);
    assert_eq!(
        plan.network_policy.allowed_targets[0].host_pattern,
        NOTION_MCP_HOST.to_string()
    );
    assert_eq!(
        plan.network_policy.allowed_targets[0].scheme,
        Some(NetworkScheme::Https)
    );
    assert_eq!(plan.response_body_limit, Some(MCP_RESPONSE_BODY_LIMIT));
    assert_eq!(plan.timeout_ms, Some(MCP_TIMEOUT_MS));
    assert_eq!(MCP_RESPONSE_BODY_LIMIT, 2 * 1024 * 1024);
    assert_eq!(MCP_TIMEOUT_MS, 60_000);
    assert_eq!(plan.network_policy.max_egress_bytes, Some(2 * 1024 * 1024));
}

#[test]
fn hosted_mcp_url_allowed_accepts_canonical_notion_url() {
    assert!(hosted_mcp_url_allowed(NOTION_MCP_URL, &notion_endpoint()));
}

#[test]
fn hosted_mcp_url_allowed_rejects_http_scheme() {
    assert!(!hosted_mcp_url_allowed("http://mcp.notion.com/mcp", &notion_endpoint()));
}

#[test]
fn hosted_mcp_url_allowed_rejects_wrong_host() {
    assert!(!hosted_mcp_url_allowed("https://evil.example.com/mcp", &notion_endpoint()));
}

#[test]
fn hosted_mcp_url_allowed_rejects_wrong_path() {
    assert!(!hosted_mcp_url_allowed("https://mcp.notion.com/other", &notion_endpoint()));
}

#[test]
fn hosted_mcp_url_allowed_accepts_trailing_slash() {
    assert!(hosted_mcp_url_allowed("https://mcp.notion.com/mcp/", &notion_endpoint()));
}

#[test]
fn hosted_mcp_url_allowed_rejects_extra_url_components() {
    let endpoint = notion_endpoint();

    assert!(!hosted_mcp_url_allowed("https://mcp.notion.com/mcp?token=shadow", &endpoint));
    assert!(!hosted_mcp_url_allowed("https://mcp.notion.com/mcp#fragment", &endpoint));
    assert!(!hosted_mcp_url_allowed("https://user@mcp.notion.com/mcp", &endpoint));
}

#[test]
fn hosted_mcp_url_ignores_host_case_and_keeps_the_port() {
    assert!(hosted_mcp_url_allowed("https://MCP.Notion.com/mcp", &notion_endpoint()));
    assert!(!hosted_mcp_url_allowed("https://mcp.notion.com:8443/mcp", &notion_endpoint()));
    assert!(!hosted_mcp_url_allowed("not a url", &notion_endpoint()));
    let with_port = HostedMcpEndpoint::parse("https://mcp.notion.com:8443/").expect("endpoint");
    assert_eq!(with_port.port, Some(8443));
    assert_eq!(with_port.path, "/");
}

#[test]
fn endpoint_components_decide_the_endpoint() {
    let parts = UrlParts {
        scheme: "https".to_string(),
        username: String::new(),
        password: None,
        host: Some("Example.COM".to_string()),
        port: Some(444),
        path: "/a/b//".to_string(),
        query: None,
        fragment: None,
    };
    let endpoint = HostedMcpEndpoint::from_parts(&parts).expect("endpoint");
    assert_eq!(endpoint.host_pattern, "example.com");
    assert_eq!(endpoint.port, Some(444));
    assert_eq!(endpoint.path, "/a/b");
    let mut with_password = parts.clone();
    with_password.password = Some("p".to_string());
    assert!(HostedMcpEndpoint::from_parts(&with_password).is_none());
    let mut without_host = parts.clone();
    without_host.host = None;
    assert!(HostedMcpEndpoint::from_parts(&without_host).is_none());
}

#[test]
fn paths_are_normalized_to_the_root_or_without_slashes() {
    assert_eq!(normalize_mcp_path("/mcp///"), "/mcp");
    assert_eq!(normalize_mcp_path("///"), "/");
    assert_eq!(normalize_mcp_path(""), "/");
    assert_eq!(normalize_mcp_path(&normalize_mcp_path("/mcp/")), "/mcp");
}

#[test]
fn only_host_bundled_http_packages_without_a_command_have_an_endpoint() {
    let good = package("notion", NOTION_MCP_URL, "notion.search");
    assert_eq!(hosted_http_mcp_endpoint(&good), Some(notion_endpoint()));

    let mut installed = good.clone();
    installed.manifest.source = ManifestSource::InstalledLocal;
    assert!(hosted_http_mcp_endpoint(&installed).is_none());

    let mut stdio = good.clone();
    stdio.manifest.runtime = ExtensionRuntime::Mcp {
        transport: "stdio".to_string(),
        command: None,
        args: Vec::new(),
        url: Some(NOTION_MCP_URL.to_string()),
    };
    assert!(hosted_http_mcp_endpoint(&stdio).is_none());

    let mut with_args = good.clone();
    with_args.manifest.runtime = ExtensionRuntime::Mcp {
        transport: "http".to_string(),
        command: None,
        args: vec!["--x".to_string()],
        url: Some(NOTION_MCP_URL.to_string()),
    };
    assert!(hosted_http_mcp_endpoint(&with_args).is_none());

    let mut other = good.clone();
    other.manifest.runtime = ExtensionRuntime::Other;
    assert!(hosted_http_mcp_endpoint(&other).is_none());
}

#[test]
fn locked_policy_names_the_endpoint_alone() {
    let policy = hosted_mcp_network_policy(&notion_endpoint());
    assert_eq!(policy.allowed_targets.len(), 1);
    assert!(notion_endpoint().allows_target(&policy.allowed_targets[0]));
    let mut plain = policy.allowed_targets[0].clone();
    plain.scheme = Some(NetworkScheme::Http);
    assert!(!notion_endpoint().allows_target(&plain));
}

#[test]
fn empty_plan_admits_nothing() {
    let plan = McpHostHttpEgressPlan::empty();
    assert!(plan.network_policy.allowed_targets.is_empty());
    assert!(plan.credential_injections.is_empty());
    assert_eq!(plan.response_body_limit, None);
    assert_eq!(plan.timeout_ms, None);
}

fn scope() -> ResourceScope {
    ResourceScope {
        tenant_id: "acme".to_string(),
        user_id: "buyer-1".to_string(),
        agent_id: Some("agent-1".to_string()),
        project_id: None,
        mission_id: None,
        thread_id: None,
        invocation_id: 7,
    }
}

#[test]
fn discovery_request_is_planned_with_the_first_capability() {
    let notion = package("notion", NOTION_MCP_URL, "notion.notion-fetch");
    let request = discovery_request(&notion, scope(), Ok(())).expect("request");
    assert_eq!(request.provider, "notion");
    assert_eq!(request.capability_id, "notion.notion-fetch");
    assert_eq!(request.scope, scope());
    assert_eq!(request.transport, "http");
    assert_eq!(request.url.as_deref(), Some(NOTION_MCP_URL));
    assert_eq!(request.input, "null");
    assert_eq!(request.max_output_bytes, 2 * 1024 * 1024);
}

#[test]
fn discovery_errors_are_told_apart() {
    let notion = package("notion", NOTION_MCP_URL, "notion.notion-fetch");
    let mut plain = notion.clone();
    plain.hosted_http_mcp = false;
    assert_eq!(
        check_discoverable(&plain),
        Err(HostedMcpDiscoveryError::Permanent(
            "extension notion is not a host-bundled hosted MCP provider".to_string()
        ))
    );
    assert_eq!(
        discovery_request(&notion, scope(), Err("registry full".to_string())),
        Err(HostedMcpDiscoveryError::Permanent(
            "failed to prepare hosted MCP discovery: registry full".to_string()
        ))
    );
    let mut bare = notion.clone();
    bare.manifest.capabilities = Vec::new();
    assert_eq!(
        discovery_request(&bare, scope(), Ok(())),
        Err(HostedMcpDiscoveryError::Permanent(
            "hosted MCP provider notion has no capability template".to_string()
        ))
    );
    let failed: Result<Vec<u8>, String> = Err("network_error".to_string());
    assert_eq!(
        discovered_tools(&notion, failed),
        Err(HostedMcpDiscoveryError::Transient("network_error".to_string()))
    );
    let empty: Result<Vec<u8>, String> = Ok(Vec::new());
    assert_eq!(
        discovered_tools(&notion, empty),
        Err(HostedMcpDiscoveryError::Transient(
            "hosted MCP provider notion returned no discoverable tools".to_string()
        ))
    );
    assert_eq!(
        discovered_package(Err("bad schema".to_string())),
        Err(HostedMcpDiscoveryError::Permanent("bad schema".to_string()))
    );
}

#[test]
fn whole_discovery_gives_the_rebuilt_package() {
    let notion = package("notion", NOTION_MCP_URL, "notion.notion-fetch");
    let mut rebuilt = notion.clone();
    rebuilt.manifest_digest = Some("digest".to_string());
    let found = discover_hosted_mcp_package(
        &notion,
        scope(),
        Ok(()),
        Ok(vec![1u8]),
        Ok(rebuilt.clone()),
    );
    assert_eq!(found, Ok(rebuilt));
}
