use ironclaw::capability::{
    CapabilityDescriptor, EffectKind, NetworkScheme, NetworkTargetPattern, PermissionMode,
    RuntimeCredentialRequirement, RuntimeCredentialRequirementSource, RuntimeCredentialTarget, RuntimeKind, TrustClass,
};
use ironclaw::grant::Principal;
use ironclaw::mcp::discovery::HostedMcpDiscoveryError;
use ironclaw::overlay::cache::{
    InflightTable, OverlayCache, MAX_OVERLAY_CACHE_ENTRIES, OVERLAY_CACHE_TTL_NANOS,
};
use ironclaw::overlay::call::{OverlayAction, OverlayEvent};
use ironclaw::overlay::fanout::{overlay_error_from_discovery, HostedMcpOverlayError};
use ironclaw::overlay::grants::{DiscoveredCapabilityGrantSource, AMBIENT_GRANT_TTL_NANOS};
use ironclaw::overlay::table::OverlayCacheKey;
use ironclaw::package::{ExtensionManifest, ExtensionPackage, ExtensionRuntime, ManifestSource};
use ironclaw::scope::{HireScope, ResourceScope};

const SECOND: u64 = 1_000_000_000;

fn descriptor(id: &str, permission: PermissionMode) -> CapabilityDescriptor {
    CapabilityDescriptor {
        id: id.to_string(),
        provider: "notion".to_string(),
        runtime: RuntimeKind::Mcp,
        trust_ceiling: TrustClass::UserTrusted,
        description: "discovered tool".to_string(),
        parameters_schema: "{\"type\":\"object\"}".to_string(),
        effects: vec![EffectKind::DispatchCapability, EffectKind::Network],
        default_permission: permission,
        runtime_credentials: vec![RuntimeCredentialRequirement {
            handle: "notion_token".to_string(),
            source: RuntimeCredentialRequirementSource::SecretHandle,
            provider_scopes: Vec::new(),
            audience: NetworkTargetPattern {
                scheme: Some(NetworkScheme::Https),
                host_pattern: "mcp.notion.com".to_string(),
                port: None,
            },
            target: RuntimeCredentialTarget::Header {
                name: "authorization".to_string(),
                prefix: Some("Bearer ".to_string()),
            },
            required: true,
        }],
        resource_profile: None,
    }
}

fn notion_package() -> ExtensionPackage {
    ExtensionPackage {
        id: "notion".to_string(),
        root: "/system/extensions/notion".to_string(),
        manifest: ExtensionManifest {
            source: ManifestSource::HostBundled,
            runtime: ExtensionRuntime::Mcp {
                transport: "http".to_string(),
                command: None,
                args: Vec::new(),
                url: Some("https://mcp.notion.com/mcp".to_string()),
            },
            capabilities: Vec::new(),
        },
        manifest_digest: None,
        capabilities: vec![descriptor("notion.live-search", PermissionMode::Ask)],
        hosted_http_mcp: true,
    }
}

fn scope(agent: Option<&str>, invocation_id: u128) -> ResourceScope {
    ResourceScope {
        tenant_id: "acme".to_string(),
        user_id: "buyer-1".to_string(),
        agent_id: agent.map(|id| id.to_string()),
        project_id: Some("proj-1".to_string()),
        mission_id: None,
        thread_id: None,
        invocation_id,
    }
}

fn key(agent: &str) -> OverlayCacheKey {
    let hire = HireScope::from_scope(&scope(Some(agent), 1)).expect("agent present");
    OverlayCacheKey::new(&hire, &notion_package())
}

#[test]
fn overlay_returns_discovered_descriptors_with_inline_schema() {
    let mut cache = OverlayCache::new();
    let descriptors = cache
        .settle(key("agent-1"), Ok(notion_package()), 0)
        .expect("discovery succeeds");

    assert_eq!(descriptors.len(), 1);
    assert_eq!(descriptors[0].id.as_str(), "notion.live-search");
    assert!(!descriptors[0].parameters_schema.contains("$ref"));
}

#[test]
fn overlay_caches_and_does_not_refetch_within_ttl() {
    let mut cache = OverlayCache::new();
    assert!(cache.cached(&key("agent-1"), 0).is_none());
    cache
        .settle(key("agent-1"), Ok(notion_package()), 5 * SECOND)
        .expect("discovery succeeds");

    let served = cache
        .cached(&key("agent-1"), 5 * SECOND + OVERLAY_CACHE_TTL_NANOS - 1)
        .expect("second call served from cache");
    assert_eq!(served, notion_package().capabilities);
}

#[test]
fn overlay_refetches_after_ttl_expiry() {
    let mut cache = OverlayCache::new();
    cache
        .settle(key("agent-1"), Ok(notion_package()), 0)
        .expect("discovery succeeds");

    assert!(cache.cached(&key("agent-1"), OVERLAY_CACHE_TTL_NANOS).is_none());
    assert_eq!(cache.len(), 0, "an expired entry is dropped");
    assert_eq!(OVERLAY_CACHE_TTL_NANOS, 60 * SECOND);
}

#[test]
fn overlay_cache_is_isolated_per_agent() {
    let mut cache = OverlayCache::new();
    cache
        .settle(key("agent-1"), Ok(notion_package()), 0)
        .expect("agent-1 discovery succeeds");

    assert!(
        cache.cached(&key("agent-2"), 0).is_none(),
        "a different agent must not be served agent-1's cache entry"
    );
    assert!(cache.cached(&key("agent-1"), 0).is_some());
}

#[test]
fn overlay_key_is_shared_by_invocations_and_split_by_manifests() {
    let first = HireScope::from_scope(&scope(Some("agent-1"), 1)).expect("agent");
    let second = HireScope::from_scope(&scope(Some("agent-1"), 2)).expect("agent");
    let package = notion_package();
    assert_eq!(
        OverlayCacheKey::new(&first, &package),
        OverlayCacheKey::new(&second, &package)
    );
    let mut changed = notion_package();
    changed.manifest_digest = Some("v2".to_string());
    assert_ne!(
        OverlayCacheKey::new(&first, &package),
        OverlayCacheKey::new(&first, &changed)
    );
}

#[test]
fn overlay_maps_transient_and_permanent_discovery_errors() {
    assert_eq!(
        overlay_error_from_discovery(HostedMcpDiscoveryError::Transient(
            "connection_refused".to_string()
        )),
        HostedMcpOverlayError::Transient("connection_refused".to_string())
    );
    assert_eq!(
        overlay_error_from_discovery(HostedMcpDiscoveryError::Permanent("bad".to_string())),
        HostedMcpOverlayError::Permanent("bad".to_string())
    );
}

#[test]
fn overlay_failed_discovery_is_not_cached_and_retries() {
    let mut cache = OverlayCache::new();
    assert_eq!(
        cache.settle(
            key("agent-1"),
            Err(HostedMcpDiscoveryError::Transient("connection_refused".to_string())),
            0
        ),
        Err(HostedMcpOverlayError::Transient("connection_refused".to_string()))
    );
    assert_eq!(cache.len(), 0);
    assert!(cache.cached(&key("agent-1"), 0).is_none());
    let descriptors = cache
        .settle(key("agent-1"), Ok(notion_package()), 1)
        .expect("second call retries instead of replaying a cached failure");
    assert_eq!(descriptors.len(), 1);
}

#[test]
fn overlay_concurrent_calls_for_same_key_single_flight_to_one_discovery() {
    let mut cache = OverlayCache::new();
    let mut inflight = InflightTable::new();
    for _ in 0..8 {
        assert!(cache.cached(&key("agent-1"), 0).is_none());
        assert!(inflight.acquire_inflight(&key("agent-1")));
    }
    assert_eq!(inflight.len(), 1);
    let mut discoveries = 0;
    for _ in 0..8 {
        if cache.cached(&key("agent-1"), 1).is_none() {
            discoveries += 1;
            cache
                .settle(key("agent-1"), Ok(notion_package()), 1)
                .expect("every concurrent call succeeds");
        }
        inflight.release(&key("agent-1"));
    }
    assert_eq!(discoveries, 1, "single-flight must collapse concurrent discoveries into one");
    assert_eq!(inflight.len(), 0, "inflight map must not leak entries");
}

#[test]
fn overlay_capabilities_cleans_up_inflight_entry_when_cancelled_by_timeout() {
    let mut inflight = InflightTable::new();
    assert!(inflight.acquire_inflight(&key("agent-1")));
    inflight.release(&key("agent-1"));
    assert!(!inflight.contains(&key("agent-1")));
    assert_eq!(inflight.len(), 0);
}

#[test]
fn a_caller_that_stops_waiting_leaves_the_key_to_the_next() {
    let mut inflight = InflightTable::new();
    assert!(inflight.acquire_inflight(&key("agent-1")));
    assert!(inflight.acquire_inflight(&key("agent-1")));
    inflight.abandon(&key("agent-1"));
    assert!(inflight.contains(&key("agent-1")));
    inflight.release(&key("agent-1"));
    assert_eq!(inflight.len(), 0);
    inflight.release(&key("agent-2"));
    assert_eq!(inflight.len(), 0);
}

#[test]
fn a_key_is_gone_with_its_last_holder_however_it_leaves() {
    let mut inflight = InflightTable::new();
    assert!(inflight.acquire_inflight(&key("agent-1")));
    assert!(inflight.acquire_inflight(&key("agent-1")));
    inflight.release(&key("agent-1"));
    assert!(inflight.contains(&key("agent-1")));
    inflight.abandon(&key("agent-1"));
    assert!(!inflight.contains(&key("agent-1")));
    assert_eq!(inflight.len(), 0, "a cancelled caller must not orphan its key");
}

#[test]
fn overlay_cache_eviction_respects_max_entries() {
    let mut cache = OverlayCache::new();
    let start = 10_000 * SECOND;
    let synthetic = |index: usize| OverlayCacheKey {
        tenant_id: "acme".to_string(),
        user_id: "buyer-1".to_string(),
        agent_id: format!("synthetic-{index}"),
        project_id: None,
        extension_id: "notion".to_string(),
        manifest_digest: None,
    };
    for index in 0..MAX_OVERLAY_CACHE_ENTRIES {
        cache.insert(synthetic(index), Vec::new(), start - index as u64);
    }
    assert_eq!(cache.len(), MAX_OVERLAY_CACHE_ENTRIES);
    assert_eq!(MAX_OVERLAY_CACHE_ENTRIES, 4096);

    cache
        .settle(key("agent-fresh"), Ok(notion_package()), start)
        .expect("discovery succeeds even at cache capacity");

    assert_eq!(cache.len(), MAX_OVERLAY_CACHE_ENTRIES);
    assert!(
        cache.cached(&synthetic(MAX_OVERLAY_CACHE_ENTRIES - 1), start).is_none(),
        "the oldest entry makes room"
    );
    assert!(cache.cached(&synthetic(0), start).is_some());
    assert!(cache.cached(&key("agent-fresh"), start).is_some());
    cache.insert(synthetic(0), Vec::new(), start);
    assert_eq!(cache.len(), MAX_OVERLAY_CACHE_ENTRIES);
    assert!(cache.cached(&synthetic(1), start).is_some());
}

#[test]
fn mints_a_grant_only_for_ask_permission_discovered_descriptors() {
    let source = DiscoveredCapabilityGrantSource::new(true);
    let now: i128 = 1_700_000_000_000_000_000;
    let grants = source.grants_for_scope(
        &scope(Some("agent-1"), 1),
        &"loop-driver".to_string(),
        &vec![
            descriptor("notion.live-search", PermissionMode::Ask),
            descriptor("notion.auto-sync", PermissionMode::Allow),
        ],
        now,
    );

    assert_eq!(grants.len(), 1, "only the Ask-permission descriptor mints a grant");
    let grant = &grants[0];
    assert_eq!(grant.capability.as_str(), "notion.live-search");
    assert_eq!(grant.grantee, Principal::Extension("loop-driver".to_string()));
    assert_eq!(grant.issued_by, Principal::HostRuntime);
    assert_eq!(grant.constraints.max_invocations, None);
    assert_eq!(grant.constraints.secrets, vec!["notion_token".to_string()]);
    assert_eq!(grant.constraints.network.allowed_targets.len(), 1);
    assert!(grant.constraints.network.deny_private_ip_ranges);
    assert_eq!(
        grant.constraints.allowed_effects,
        vec![EffectKind::DispatchCapability, EffectKind::Network]
    );
    assert_eq!(grant.constraints.expires_at, Some(now + AMBIENT_GRANT_TTL_NANOS));
    assert_eq!(AMBIENT_GRANT_TTL_NANOS, 300 * SECOND as i128);
}

#[test]
fn mints_nothing_without_an_agent_scope() {
    let source = DiscoveredCapabilityGrantSource::new(true);
    let grants = source.grants_for_scope(
        &scope(None, 1),
        &"loop-driver".to_string(),
        &vec![descriptor("notion.live-search", PermissionMode::Ask)],
        0,
    );

    assert!(grants.is_empty(), "no agent_id must never mint a grant");
    assert!(source.hire_to_discover(&scope(None, 1)).is_none());
}

#[test]
fn mints_nothing_without_an_attached_overlay() {
    let source = DiscoveredCapabilityGrantSource::new(false);
    let grants = source.grants_for_scope(
        &scope(Some("agent-1"), 1),
        &"loop-driver".to_string(),
        &vec![descriptor("notion.live-search", PermissionMode::Ask)],
        0,
    );

    assert!(grants.is_empty());
    assert!(source.hire_to_discover(&scope(Some("agent-1"), 1)).is_none());
}

fn descriptors_served(action: OverlayAction) -> Vec<CapabilityDescriptor> {
    match action {
        OverlayAction::Serve { descriptors } => descriptors,
        other => panic!("expected capabilities, got {other:?}"),
    }
}

#[test]
fn a_caller_that_waited_is_served_the_discovery_of_another() {
    let mut cache = OverlayCache::new();
    let package = notion_package();
    let first = HireScope::from_scope(&scope(Some("agent-1"), 1)).expect("agent");
    let second = HireScope::from_scope(&scope(Some("agent-1"), 2)).expect("agent");

    for hire in [&first, &second] {
        assert!(matches!(
            cache.overlay_capabilities(hire, &package, OverlayEvent::Asked, 0),
            OverlayAction::AwaitTurn
        ));
    }
    match cache.overlay_capabilities(&first, &package, OverlayEvent::Turn, SECOND) {
        OverlayAction::Discover { scope } => assert_eq!(scope, first.to_owner_scope()),
        other => panic!("expected a discovery, got {other:?}"),
    }
    let discovered = OverlayEvent::Discovered {
        discovery: Ok(notion_package()),
    };
    let served = cache.overlay_capabilities(&first, &package, discovered, 2 * SECOND);
    assert_eq!(descriptors_served(served), package.capabilities);
    let served = cache.overlay_capabilities(&second, &package, OverlayEvent::Turn, 3 * SECOND);
    assert_eq!(descriptors_served(served), package.capabilities);
    let later = 2 * SECOND + OVERLAY_CACHE_TTL_NANOS;
    assert!(matches!(
        cache.overlay_capabilities(&second, &package, OverlayEvent::Turn, later),
        OverlayAction::Discover { .. }
    ));
}

#[test]
fn a_failed_discovery_is_tried_again_by_the_next_caller() {
    let mut cache = OverlayCache::new();
    let package = notion_package();
    let hire = HireScope::from_scope(&scope(Some("agent-1"), 1)).expect("agent");
    let failed = OverlayEvent::Discovered {
        discovery: Err(HostedMcpDiscoveryError::Permanent("no tools".to_string())),
    };
    match cache.overlay_capabilities(&hire, &package, failed, 0) {
        OverlayAction::Fail { error } => {
            assert_eq!(error, HostedMcpOverlayError::Permanent("no tools".to_string()))
        }
        other => panic!("expected a failure, got {other:?}"),
    }
    assert!(matches!(
        cache.overlay_capabilities(&hire, &package, OverlayEvent::Turn, 1),
        OverlayAction::Discover { .. }
    ));
}
