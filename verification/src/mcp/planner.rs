//! Egress plans for hosted MCP requests.

use vstd::prelude::*;

use crate::capability::{
    NetworkPolicy, NetworkPolicyView, NetworkScheme, RuntimeCredentialInjection, RuntimeCredentialInjectionView,
    RuntimeCredentialRequirement, RuntimeCredentialRequirementView, RuntimeCredentialSource,
    RuntimeCredentialSourceView,
};
use crate::ids::{CapabilityId, ExtensionId};
use crate::mcp::endpoint::{
    endpoint_of_package, endpoint_of_url, hosted_http_mcp_endpoint, hosted_mcp_network_policy,
    hosted_mcp_url_allowed, locked_policy, target_allowed, HostedMcpEndpoint,
    HostedMcpEndpointView,
};
use crate::registry::{ExtensionRegistry, ExtensionRegistryView};

verus! {

/// Bytes a hosted MCP response may hold.
pub const MCP_RESPONSE_BODY_LIMIT: u64 = 2097152;

/// Milliseconds a hosted MCP request may take.
pub const MCP_TIMEOUT_MS: u32 = 60000;

/// What a hosted MCP request wants to send.
#[derive(Debug, PartialEq, Eq)]
pub struct McpHostHttpEgressPlanRequest {
    pub provider: ExtensionId,
    pub capability_id: CapabilityId,
    pub url: String,
    /// Credentials the dispatcher resolved for this request.
    pub runtime_credentials: Vec<RuntimeCredentialRequirement>,
}

/// The mathematical value of a [`McpHostHttpEgressPlanRequest`].
#[verifier::ext_equal]
pub struct McpHostHttpEgressPlanRequestView {
    pub provider: Seq<char>,
    pub capability_id: Seq<char>,
    pub url: Seq<char>,
    pub runtime_credentials: Seq<RuntimeCredentialRequirementView>,
}

impl View for McpHostHttpEgressPlanRequest {
    type V = McpHostHttpEgressPlanRequestView;

    open spec fn view(&self) -> McpHostHttpEgressPlanRequestView {
        McpHostHttpEgressPlanRequestView {
            provider: self.provider@,
            capability_id: self.capability_id@,
            url: self.url@,
            runtime_credentials: self.runtime_credentials.deep_view(),
        }
    }
}

impl DeepView for McpHostHttpEgressPlanRequest {
    type V = McpHostHttpEgressPlanRequestView;

    open spec fn deep_view(&self) -> McpHostHttpEgressPlanRequestView {
        self@
    }
}

impl Clone for McpHostHttpEgressPlanRequest {
    fn clone(&self) -> (r: Self)
        ensures
            r@ == self@,
    {
        let r = McpHostHttpEgressPlanRequest {
            provider: self.provider.clone(),
            capability_id: self.capability_id.clone(),
            url: self.url.clone(),
            runtime_credentials: self.runtime_credentials.clone(),
        };
        assert(r.runtime_credentials.deep_view() =~= self.runtime_credentials.deep_view());
        r
    }
}

/// How a hosted MCP request may leave the host.
#[derive(Debug, PartialEq, Eq)]
pub struct McpHostHttpEgressPlan {
    pub network_policy: NetworkPolicy,
    pub credential_injections: Vec<RuntimeCredentialInjection>,
    pub response_body_limit: Option<u64>,
    pub timeout_ms: Option<u32>,
}

/// The mathematical value of a [`McpHostHttpEgressPlan`].
#[verifier::ext_equal]
pub struct McpHostHttpEgressPlanView {
    pub network_policy: NetworkPolicyView,
    pub credential_injections: Seq<RuntimeCredentialInjectionView>,
    pub response_body_limit: Option<u64>,
    pub timeout_ms: Option<u32>,
}

impl View for McpHostHttpEgressPlan {
    type V = McpHostHttpEgressPlanView;

    open spec fn view(&self) -> McpHostHttpEgressPlanView {
        McpHostHttpEgressPlanView {
            network_policy: self.network_policy@,
            credential_injections: self.credential_injections.deep_view(),
            response_body_limit: self.response_body_limit,
            timeout_ms: self.timeout_ms,
        }
    }
}

impl DeepView for McpHostHttpEgressPlan {
    type V = McpHostHttpEgressPlanView;

    open spec fn deep_view(&self) -> McpHostHttpEgressPlanView {
        self@
    }
}

impl Clone for McpHostHttpEgressPlan {
    fn clone(&self) -> (r: Self)
        ensures
            r@ == self@,
    {
        let r = McpHostHttpEgressPlan {
            network_policy: self.network_policy.clone(),
            credential_injections: self.credential_injections.clone(),
            response_body_limit: self.response_body_limit,
            timeout_ms: self.timeout_ms,
        };
        assert(r.credential_injections.deep_view() =~= self.credential_injections.deep_view());
        r
    }
}

/// Plans hosted MCP egress from a registry snapshot.
#[derive(Debug, PartialEq, Eq)]
pub struct RegistryMcpEgressPlanner {
    pub registry: ExtensionRegistry,
}

/// The mathematical value of a [`RegistryMcpEgressPlanner`].
#[verifier::ext_equal]
pub struct RegistryMcpEgressPlannerView {
    pub registry: ExtensionRegistryView,
}

impl View for RegistryMcpEgressPlanner {
    type V = RegistryMcpEgressPlannerView;

    open spec fn view(&self) -> RegistryMcpEgressPlannerView {
        RegistryMcpEgressPlannerView {
            registry: self.registry@,
        }
    }
}

impl DeepView for RegistryMcpEgressPlanner {
    type V = RegistryMcpEgressPlannerView;

    open spec fn deep_view(&self) -> RegistryMcpEgressPlannerView {
        self@
    }
}

impl Clone for RegistryMcpEgressPlanner {
    fn clone(&self) -> (r: Self)
        ensures
            r@ == self@,
    {
        RegistryMcpEgressPlanner {
            registry: self.registry.clone(),
        }
    }
}

/// The injection that stages one credential for a capability.
pub open spec fn staged_injection(
    capability_id: Seq<char>,
    credential: RuntimeCredentialRequirementView,
) -> RuntimeCredentialInjectionView {
    RuntimeCredentialInjectionView {
        handle: credential.handle,
        source: RuntimeCredentialSourceView::StagedObligation { capability_id },
        target: credential.target,
        required: credential.required,
    }
}

/// Whether a credential is meant for an endpoint.
pub open spec fn meant_for(
    endpoint: HostedMcpEndpointView,
) -> spec_fn(RuntimeCredentialRequirementView) -> bool {
    |credential: RuntimeCredentialRequirementView| target_allowed(endpoint, credential.audience)
}

/// One staged injection for each credential meant for the endpoint, in order.
pub open spec fn staged_injections(
    capability_id: Seq<char>,
    endpoint: HostedMcpEndpointView,
    credentials: Seq<RuntimeCredentialRequirementView>,
) -> Seq<RuntimeCredentialInjectionView> {
    credentials.filter(meant_for(endpoint)).map_values(
        |credential: RuntimeCredentialRequirementView|
            staged_injection(capability_id, credential),
    )
}

/// The credentials that decide a capability's injections: the registry's when it
/// publishes the capability for this provider, the request's otherwise.
pub open spec fn deciding_credentials(
    registry: ExtensionRegistryView,
    provider: Seq<char>,
    capability_id: Seq<char>,
    request_credentials: Seq<RuntimeCredentialRequirementView>,
) -> Seq<RuntimeCredentialRequirementView> {
    match registry.capability(capability_id) {
        Some(descriptor) => if descriptor.provider == provider {
            descriptor.runtime_credentials
        } else {
            request_credentials
        },
        None => request_credentials,
    }
}

/// The plan that admits nothing.
///
/// The MCP client defines it as its default plan. That private ranges are not
/// denied in it is this library's reading of that default; with no target
/// allowed, nothing is sent either way.
pub open spec fn empty_plan() -> McpHostHttpEgressPlanView {
    McpHostHttpEgressPlanView {
        network_policy: NetworkPolicyView {
            allowed_targets: Seq::empty(),
            deny_private_ip_ranges: false,
            max_egress_bytes: None,
        },
        credential_injections: Seq::empty(),
        response_body_limit: None,
        timeout_ms: None,
    }
}

/// The endpoint of a registered provider.
pub open spec fn provider_endpoint(
    registry: ExtensionRegistryView,
    provider: Seq<char>,
) -> Option<HostedMcpEndpointView> {
    match registry.extension(provider) {
        Some(package) => endpoint_of_package(package),
        None => None,
    }
}

/// The plan of a request, given the endpoint of its provider and the endpoint
/// its URL names.
pub open spec fn plan_for(
    registry: ExtensionRegistryView,
    request: McpHostHttpEgressPlanRequestView,
    provider_endpoint: Option<HostedMcpEndpointView>,
    url_endpoint: Option<HostedMcpEndpointView>,
) -> McpHostHttpEgressPlanView {
    match provider_endpoint {
        Some(endpoint) => if url_endpoint == Some(endpoint) {
            McpHostHttpEgressPlanView {
                network_policy: locked_policy(endpoint),
                credential_injections: staged_injections(
                    request.capability_id,
                    endpoint,
                    deciding_credentials(
                        registry,
                        request.provider,
                        request.capability_id,
                        request.runtime_credentials,
                    ),
                ),
                response_body_limit: Some(MCP_RESPONSE_BODY_LIMIT),
                timeout_ms: Some(MCP_TIMEOUT_MS),
            }
        } else {
            empty_plan()
        },
        None => empty_plan(),
    }
}

impl McpHostHttpEgressPlan {
    /// The plan that admits nothing.
    pub fn empty() -> (r: Self)
        ensures
            r@ == empty_plan(),
    {
        let targets: Vec<crate::capability::NetworkTargetPattern> = Vec::new();
        let injections: Vec<RuntimeCredentialInjection> = Vec::new();
        let plan = McpHostHttpEgressPlan {
            network_policy: NetworkPolicy {
                allowed_targets: targets,
                deny_private_ip_ranges: false,
                max_egress_bytes: None,
            },
            credential_injections: injections,
            response_body_limit: None,
            timeout_ms: None,
        };
        assert(plan@ =~= empty_plan()) by {
            assert(plan@.network_policy =~= empty_plan().network_policy);
            assert(plan@.credential_injections =~= empty_plan().credential_injections);
        }
        plan
    }
}

impl RegistryMcpEgressPlanner {
    /// A planner over a registry snapshot.
    pub fn new(registry: ExtensionRegistry) -> (r: Self)
        ensures
            r@.registry == registry@,
    {
        RegistryMcpEgressPlanner { registry }
    }

    /// The staged injections of a capability call at an endpoint.
    ///
    /// The registry alone decides when it publishes the capability for this
    /// provider. A capability that it does not publish, or publishes for another
    /// provider, falls back to the credentials the request carries. Either way
    /// only credentials meant for the endpoint are injected.
    pub fn credential_injections(
        &self,
        provider: &ExtensionId,
        capability_id: &CapabilityId,
        endpoint: &HostedMcpEndpoint,
        request_credentials: &Vec<RuntimeCredentialRequirement>,
    ) -> (r: Vec<RuntimeCredentialInjection>)
        ensures
            r.deep_view() == staged_injections(
                capability_id@,
                endpoint@,
                deciding_credentials(
                    self@.registry,
                    provider@,
                    capability_id@,
                    request_credentials.deep_view(),
                ),
            ),
    {
        match self.registry.get_capability(capability_id) {
            Some(descriptor) => if descriptor.provider == *provider {
                Self::injections_from_requirements(
                    capability_id,
                    endpoint,
                    &descriptor.runtime_credentials,
                )
            } else {
                Self::injections_from_requirements(capability_id, endpoint, request_credentials)
            },
            None => Self::injections_from_requirements(
                capability_id,
                endpoint,
                request_credentials,
            ),
        }
    }

    /// One staged injection for each credential meant for the endpoint.
    pub fn injections_from_requirements(
        capability_id: &CapabilityId,
        endpoint: &HostedMcpEndpoint,
        credentials: &Vec<RuntimeCredentialRequirement>,
    ) -> (r: Vec<RuntimeCredentialInjection>)
        ensures
            r.deep_view() == staged_injections(
                capability_id@,
                endpoint@,
                credentials.deep_view(),
            ),
    {
        let mut out: Vec<RuntimeCredentialInjection> = Vec::new();
        let ghost views = credentials.deep_view();
        let mut i: usize = 0;
        proof {
            reveal(Seq::filter);
        }
        assert(out.deep_view() =~= staged_injections(capability_id@, endpoint@, views.take(0)));
        while i < credentials.len()
            invariant
                views == credentials.deep_view(),
                i <= credentials@.len(),
                out.deep_view() == staged_injections(
                    capability_id@,
                    endpoint@,
                    views.take(i as int),
                ),
            decreases credentials@.len() - i,
        {
            let credential = &credentials[i];
            let ghost before = out.deep_view();
            proof {
                reveal(Seq::filter);
                assert(views.take(i + 1).drop_last() =~= views.take(i as int));
                assert(views.take(i + 1).last() == credential@);
            }
            if endpoint.allows_target(&credential.audience) {
                out.push(
                    RuntimeCredentialInjection {
                        handle: credential.handle.clone(),
                        source: RuntimeCredentialSource::StagedObligation {
                            capability_id: capability_id.clone(),
                        },
                        target: credential.target.clone(),
                        required: credential.required,
                    },
                );
                assert(out.deep_view() =~= before.push(
                    staged_injection(capability_id@, credential@),
                ));
            }
            assert(out.deep_view() =~= staged_injections(
                capability_id@,
                endpoint@,
                views.take(i + 1),
            ));
            i = i + 1;
        }
        assert(views.take(views.len() as int) =~= views);
        out
    }

    /// The endpoint of a registered provider.
    pub fn provider_endpoint(&self, provider: &ExtensionId) -> (r: Option<HostedMcpEndpoint>)
        ensures
            r.deep_view() == provider_endpoint(self@.registry, provider@),
    {
        match self.registry.get_extension(provider) {
            Some(package) => hosted_http_mcp_endpoint(package),
            None => None,
        }
    }

    /// The plan of a request. An unknown provider, or a URL that is not the
    /// provider's endpoint, gets the plan that admits nothing.
    pub fn plan(&self, request: &McpHostHttpEgressPlanRequest) -> (r: McpHostHttpEgressPlan)
        ensures
            r@ == plan_for(
                self@.registry,
                request@,
                provider_endpoint(self@.registry, request@.provider),
                endpoint_of_url(request@.url),
            ),
    {
        match self.provider_endpoint(&request.provider) {
            Some(endpoint) => {
                if !hosted_mcp_url_allowed(request.url.as_str(), &endpoint) {
                    return McpHostHttpEgressPlan::empty();
                }
                self.plan_at(request, &endpoint)
            },
            None => McpHostHttpEgressPlan::empty(),
        }
    }

    /// The plan of a request whose URL is its provider's endpoint.
    pub fn plan_at(
        &self,
        request: &McpHostHttpEgressPlanRequest,
        endpoint: &HostedMcpEndpoint,
    ) -> (r: McpHostHttpEgressPlan)
        ensures
            r@ == plan_for(self@.registry, request@, Some(endpoint@), Some(endpoint@)),
    {
        let credential_injections = self.credential_injections(
            &request.provider,
            &request.capability_id,
            endpoint,
            &request.runtime_credentials,
        );
        McpHostHttpEgressPlan {
            network_policy: hosted_mcp_network_policy(endpoint),
            credential_injections,
            response_body_limit: Some(MCP_RESPONSE_BODY_LIMIT),
            timeout_ms: Some(MCP_TIMEOUT_MS),
        }
    }
}

/// When the registry publishes a capability for a provider, the credentials a
/// request carries change nothing.
pub proof fn law_registry_credentials_are_authoritative(
    registry: ExtensionRegistryView,
    provider: Seq<char>,
    capability_id: Seq<char>,
    left: Seq<RuntimeCredentialRequirementView>,
    right: Seq<RuntimeCredentialRequirementView>,
)
    requires
        registry.capability(capability_id) is Some,
        registry.capability(capability_id)->0.provider == provider,
    ensures
        deciding_credentials(registry, provider, capability_id, left) == deciding_credentials(
            registry,
            provider,
            capability_id,
            right,
        ),
{
}

/// Every injection of a plan stages a deciding credential whose audience is the
/// endpoint, for the capability that was asked for.
pub proof fn law_injections_stay_with_their_audience(
    capability_id: Seq<char>,
    endpoint: HostedMcpEndpointView,
    credentials: Seq<RuntimeCredentialRequirementView>,
    at: int,
)
    requires
        0 <= at < staged_injections(capability_id, endpoint, credentials).len(),
    ensures
        exists|k: int|
            0 <= k < credentials.len() && target_allowed(
                endpoint,
                (#[trigger] credentials[k]).audience,
            ) && staged_injections(capability_id, endpoint, credentials)[at] == staged_injection(
                capability_id,
                credentials[k],
            ),
{
    let kept = credentials.filter(meant_for(endpoint));
    credentials.lemma_filter_contains_rev(meant_for(endpoint), kept[at]);
    assert(kept.contains(kept[at]));
    broadcast use vstd::seq_lib::group_filter_ensures;
    assert(credentials.contains(kept[at]));
    let k = choose|k: int| 0 <= k < credentials.len() && credentials[k] == kept[at];
    assert(target_allowed(endpoint, credentials[k].audience));
}

/// A plan reaches the network only when the URL is the provider's endpoint, and
/// then it reaches that endpoint alone.
pub proof fn law_plan_is_locked_to_the_provider(
    registry: ExtensionRegistryView,
    request: McpHostHttpEgressPlanRequestView,
    provider_endpoint: Option<HostedMcpEndpointView>,
    url_endpoint: Option<HostedMcpEndpointView>,
)
    ensures
        ({
            let plan = plan_for(registry, request, provider_endpoint, url_endpoint);
            if provider_endpoint is Some && url_endpoint == provider_endpoint {
                plan.network_policy == locked_policy(provider_endpoint->0)
            } else {
                plan.network_policy.allowed_targets.len() == 0
                    && plan.credential_injections.len() == 0
            }
        }),
{
}

/// One more credential adds an injection at the end exactly if its audience is the
/// endpoint. The injection has the handle, the target and the need of the credential,
/// and is staged for the planned capability.
pub proof fn law_each_credential_adds_its_injection(
    capability_id: Seq<char>,
    endpoint: HostedMcpEndpointView,
    credentials: Seq<RuntimeCredentialRequirementView>,
    credential: RuntimeCredentialRequirementView,
)
    ensures
        staged_injections(capability_id, endpoint, Seq::empty()).len() == 0,
        ({
            let before = staged_injections(capability_id, endpoint, credentials);
            let after = staged_injections(capability_id, endpoint, credentials.push(credential));
            if target_allowed(endpoint, credential.audience) {
                &&& after.len() == before.len() + 1
                &&& after.drop_last() == before
                &&& after.last().handle == credential.handle
                &&& after.last().target == credential.target
                &&& after.last().required == credential.required
                &&& after.last().source == (RuntimeCredentialSourceView::StagedObligation {
                    capability_id,
                })
            } else {
                after == before
            }
        }),
{
    reveal(Seq::filter);
    let longer = credentials.push(credential);
    assert(longer.drop_last() =~= credentials);
    assert(longer.last() == credential);
    let before = staged_injections(capability_id, endpoint, credentials);
    let after = staged_injections(capability_id, endpoint, longer);
    if target_allowed(endpoint, credential.audience) {
        assert(after.drop_last() =~= before);
    }
}

/// Each injection of a plan comes from one credential requirement that is meant for the
/// endpoint: it has its handle, its target, header name and prefix included, and its
/// need, and is staged for the planned capability. The requirement is one of the
/// registry's where the registry publishes the capability for this provider, and else
/// one that the request brings.
pub proof fn law_planned_injections_are_their_requirements(
    registry: ExtensionRegistryView,
    request: McpHostHttpEgressPlanRequestView,
    provider_endpoint: Option<HostedMcpEndpointView>,
    url_endpoint: Option<HostedMcpEndpointView>,
    requirements: Seq<RuntimeCredentialRequirementView>,
    at: int,
)
    requires
        requirements == (match registry.capability(request.capability_id) {
            Some(published) => if published.provider == request.provider {
                published.runtime_credentials
            } else {
                request.runtime_credentials
            },
            None => request.runtime_credentials,
        }),
        0 <= at < plan_for(
            registry,
            request,
            provider_endpoint,
            url_endpoint,
        ).credential_injections.len(),
    ensures
        provider_endpoint is Some,
        ({
            let injection = plan_for(
                registry,
                request,
                provider_endpoint,
                url_endpoint,
            ).credential_injections[at];
            &&& injection.source == (RuntimeCredentialSourceView::StagedObligation {
                capability_id: request.capability_id,
            })
            &&& exists|k: int|
                0 <= k < requirements.len() && (#[trigger] requirements[k]).handle
                    == injection.handle && requirements[k].target == injection.target
                    && requirements[k].required == injection.required && target_allowed(
                    provider_endpoint->0,
                    requirements[k].audience,
                )
        }),
{
    law_injections_stay_with_their_audience(
        request.capability_id,
        provider_endpoint->0,
        requirements,
        at,
    );
}

/// Where the URL is the provider's endpoint, every credential requirement that is meant
/// for it has its injection.
pub proof fn law_every_meant_requirement_is_planned(
    registry: ExtensionRegistryView,
    request: McpHostHttpEgressPlanRequestView,
    endpoint: HostedMcpEndpointView,
    requirements: Seq<RuntimeCredentialRequirementView>,
    at: int,
)
    requires
        requirements == (match registry.capability(request.capability_id) {
            Some(published) => if published.provider == request.provider {
                published.runtime_credentials
            } else {
                request.runtime_credentials
            },
            None => request.runtime_credentials,
        }),
        0 <= at < requirements.len(),
        target_allowed(endpoint, requirements[at].audience),
    ensures
        ({
            let injections = plan_for(
                registry,
                request,
                Some(endpoint),
                Some(endpoint),
            ).credential_injections;
            exists|k: int|
                0 <= k < injections.len() && (#[trigger] injections[k]).handle
                    == requirements[at].handle && injections[k].target == requirements[at].target
                    && injections[k].required == requirements[at].required
        }),
{
    let kept = requirements.filter(meant_for(endpoint));
    requirements.lemma_filter_contains(meant_for(endpoint), at);
    let k = choose|k: int| 0 <= k < kept.len() && kept[k] == requirements[at];
    let injections = plan_for(
        registry,
        request,
        Some(endpoint),
        Some(endpoint),
    ).credential_injections;
    assert(injections[k] == staged_injection(request.capability_id, kept[k]));
    assert(injections[k].handle == requirements[at].handle);
}

/// A plan admits anything only where the URL is the provider's own endpoint: then that
/// endpoint over HTTPS, with two mebibytes either way and a minute of time, and no
/// private address. Else it admits no target and injects nothing.
pub proof fn law_plan_admits_the_endpoint_or_nothing(
    registry: ExtensionRegistryView,
    request: McpHostHttpEgressPlanRequestView,
    provider_endpoint: Option<HostedMcpEndpointView>,
    url_endpoint: Option<HostedMcpEndpointView>,
)
    ensures
        ({
            let plan = plan_for(registry, request, provider_endpoint, url_endpoint);
            if provider_endpoint is Some && url_endpoint == provider_endpoint {
                let target = plan.network_policy.allowed_targets[0];
                &&& plan.network_policy.allowed_targets.len() == 1
                &&& target.scheme == Some(NetworkScheme::Https)
                &&& target.host_pattern == provider_endpoint->0.host_pattern
                &&& target.port == provider_endpoint->0.port
                &&& plan.network_policy.deny_private_ip_ranges
                &&& plan.network_policy.max_egress_bytes == Some(2097152u64)
                &&& plan.response_body_limit == Some(2097152u64)
                &&& plan.timeout_ms == Some(60000u32)
            } else {
                &&& plan.network_policy.allowed_targets.len() == 0
                &&& plan.network_policy.max_egress_bytes is None
                &&& plan.credential_injections.len() == 0
                &&& plan.response_body_limit is None
                &&& plan.timeout_ms is None
            }
        }),
{
}

/// The endpoint of a provider is that of the package registered under its id; an
/// unknown provider has none.
pub proof fn law_provider_endpoint_is_its_packages(
    registry: ExtensionRegistryView,
    provider: Seq<char>,
)
    ensures
        registry.extension(provider) is None ==> provider_endpoint(registry, provider) is None,
        registry.extension(provider) matches Some(package) ==> provider_endpoint(
            registry,
            provider,
        ) == endpoint_of_package(package),
{
}

} // verus!
