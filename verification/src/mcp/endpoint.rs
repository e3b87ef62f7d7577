//! The endpoint of a hosted MCP server, and which URLs belong to it.

use vstd::prelude::*;

use crate::capability::{
    NetworkPolicy, NetworkPolicyView, NetworkScheme, NetworkTargetPattern,
    NetworkTargetPatternView,
};
use crate::package::{
    ExtensionPackage, ExtensionPackageView, ExtensionRuntime, ExtensionRuntimeView, ManifestSource,
};
use crate::text::{
    ascii_lower, ascii_lower_char, law_trailing_run_is_cut, lemma_without_trailing_fixed,
    same_text, same_text_ignoring_ascii_case, to_ascii_lower, trim_trailing, without_trailing,
};
use crate::web::{parse_url, parsed_url, UrlParts, UrlPartsView};

verus! {

/// Bytes a hosted MCP request may send.
pub const MCP_NETWORK_EGRESS_LIMIT: u64 = 2097152;

/// Host, port and path of a hosted MCP server reached over HTTPS.
#[derive(Debug, PartialEq, Eq)]
pub struct HostedMcpEndpoint {
    pub host_pattern: String,
    pub port: Option<u16>,
    pub path: String,
}

/// The mathematical value of a [`HostedMcpEndpoint`].
#[verifier::ext_equal]
pub struct HostedMcpEndpointView {
    pub host_pattern: Seq<char>,
    pub port: Option<u16>,
    pub path: Seq<char>,
}

impl View for HostedMcpEndpoint {
    type V = HostedMcpEndpointView;

    open spec fn view(&self) -> HostedMcpEndpointView {
        HostedMcpEndpointView {
            host_pattern: self.host_pattern@,
            port: self.port,
            path: self.path@,
        }
    }
}

impl DeepView for HostedMcpEndpoint {
    type V = HostedMcpEndpointView;

    open spec fn deep_view(&self) -> HostedMcpEndpointView {
        self@
    }
}

impl Clone for HostedMcpEndpoint {
    fn clone(&self) -> (r: Self)
        ensures
            r@ == self@,
    {
        HostedMcpEndpoint {
            host_pattern: self.host_pattern.clone(),
            port: self.port,
            path: self.path.clone(),
        }
    }
}

/// A path without trailing slashes; a path of slashes only is the root.
pub open spec fn normalized_path(path: Seq<char>) -> Seq<char> {
    if without_trailing(path, '/').len() == 0 {
        "/"@
    } else {
        without_trailing(path, '/')
    }
}

/// Drops trailing slashes from a path, keeping the root path.
pub fn normalize_mcp_path(path: &str) -> (r: String)
    ensures
        r@ == normalized_path(path@),
{
    let trimmed = trim_trailing(path, '/');
    if trimmed.as_str().is_empty() {
        "/".to_string()
    } else {
        trimmed
    }
}

/// Whether URL components name nothing but an HTTPS host, port and path.
pub open spec fn plain_https(parts: UrlPartsView) -> bool {
    &&& parts.scheme == "https"@
    &&& parts.username.len() == 0
    &&& parts.password is None
    &&& parts.query is None
    &&& parts.fragment is None
    &&& parts.host is Some
}

/// The endpoint that URL components name, if they name one.
pub open spec fn endpoint_of_parts(parts: UrlPartsView) -> Option<HostedMcpEndpointView> {
    if plain_https(parts) {
        Some(
            HostedMcpEndpointView {
                host_pattern: ascii_lower(parts.host->0),
                port: parts.port,
                path: normalized_path(parts.path),
            },
        )
    } else {
        None
    }
}

/// The endpoint a URL names, if it names one.
pub open spec fn endpoint_of_url(url: Seq<char>) -> Option<HostedMcpEndpointView> {
    match parsed_url(url) {
        Some(parts) => endpoint_of_parts(parts),
        None => None,
    }
}

/// The endpoint of a package: host-bundled MCP over HTTP, started by no
/// command and no arguments, with a URL that names an endpoint.
pub open spec fn endpoint_of_package(package: ExtensionPackageView) -> Option<
    HostedMcpEndpointView,
> {
    match package.manifest.runtime {
        ExtensionRuntimeView::Mcp { transport, command: None, args, url: Some(url) } => {
            if package.manifest.source == ManifestSource::HostBundled && transport == "http"@
                && args.len() == 0 {
                endpoint_of_url(url)
            } else {
                None
            }
        },
        _ => None,
    }
}

/// Whether a network target is this endpoint: HTTPS, the same host up to ASCII
/// case, and the same port.
pub open spec fn target_allowed(
    endpoint: HostedMcpEndpointView,
    target: NetworkTargetPatternView,
) -> bool {
    &&& target.scheme == Some(NetworkScheme::Https)
    &&& ascii_lower(target.host_pattern) == ascii_lower(endpoint.host_pattern)
    &&& target.port == endpoint.port
}

/// The policy that admits this endpoint and nothing else.
pub open spec fn locked_policy(endpoint: HostedMcpEndpointView) -> NetworkPolicyView {
    NetworkPolicyView {
        allowed_targets: seq![
            NetworkTargetPatternView {
                scheme: Some(NetworkScheme::Https),
                host_pattern: endpoint.host_pattern,
                port: endpoint.port,
            },
        ],
        deny_private_ip_ranges: true,
        max_egress_bytes: Some(MCP_NETWORK_EGRESS_LIMIT),
    }
}

impl HostedMcpEndpoint {
    /// The endpoint a URL names. `None` unless the URL parses, has scheme
    /// `https` and a host, and carries no user, password, query or fragment.
    pub fn parse(url: &str) -> (r: Option<Self>)
        ensures
            r.deep_view() == endpoint_of_url(url@),
    {
        match parse_url(url) {
            Some(parts) => Self::from_parts(&parts),
            None => None,
        }
    }

    /// The endpoint that parsed URL components name.
    pub fn from_parts(parts: &UrlParts) -> (r: Option<Self>)
        ensures
            r.deep_view() == endpoint_of_parts(parts@),
    {
        if !same_text(parts.scheme.as_str(), "https") || !parts.username.as_str().is_empty()
            || parts.password.is_some() || parts.query.is_some() || parts.fragment.is_some() {
            return None;
        }
        match &parts.host {
            Some(host) => Some(
                HostedMcpEndpoint {
                    host_pattern: to_ascii_lower(host.as_str()),
                    port: parts.port,
                    path: normalize_mcp_path(parts.path.as_str()),
                },
            ),
            None => None,
        }
    }

    /// Whether a credential audience is this endpoint.
    pub fn allows_target(&self, target: &NetworkTargetPattern) -> (r: bool)
        ensures
            r == target_allowed(self@, target@),
    {
        let https = match target.scheme {
            Some(NetworkScheme::Https) => true,
            _ => false,
        };
        https && same_text_ignoring_ascii_case(
            target.host_pattern.as_str(),
            self.host_pattern.as_str(),
        ) && same_port(target.port, self.port)
    }

    /// Whether a URL names exactly this endpoint.
    pub fn matches_url(&self, url: &str) -> (r: bool)
        ensures
            r == (endpoint_of_url(url@) == Some(self@)),
    {
        match Self::parse(url) {
            Some(endpoint) => endpoint.same_as(self),
            None => false,
        }
    }

    /// Whether two endpoints agree on host, port and path.
    pub fn same_as(&self, other: &Self) -> (r: bool)
        ensures
            r == (self@ == other@),
    {
        self.host_pattern == other.host_pattern && same_port(self.port, other.port) && self.path
            == other.path
    }
}

fn same_port(a: Option<u16>, b: Option<u16>) -> (r: bool)
    ensures
        r == (a == b),
{
    match (a, b) {
        (Some(left), Some(right)) => left == right,
        (None, None) => true,
        _ => false,
    }
}

/// The endpoint of a registered package, if it is a host-bundled hosted MCP
/// server reached over HTTPS.
pub fn hosted_http_mcp_endpoint(package: &ExtensionPackage) -> (r: Option<HostedMcpEndpoint>)
    ensures
        r.deep_view() == endpoint_of_package(package@),
{
    let bundled = match package.manifest.source {
        ManifestSource::HostBundled => true,
        _ => false,
    };
    match &package.manifest.runtime {
        ExtensionRuntime::Mcp { transport, command: None, args, url: Some(url) } => {
            if bundled && same_text(transport.as_str(), "http") && args.is_empty() {
                HostedMcpEndpoint::parse(url.as_str())
            } else {
                None
            }
        },
        _ => None,
    }
}

/// Whether a URL may be requested from an endpoint: scheme `https`, the same
/// host up to ASCII case, the same port, and the same path up to trailing
/// slashes.
pub fn hosted_mcp_url_allowed(url: &str, endpoint: &HostedMcpEndpoint) -> (r: bool)
    ensures
        r == (endpoint_of_url(url@) == Some(endpoint@)),
{
    endpoint.matches_url(url)
}

/// The network policy of an endpoint.
pub fn hosted_mcp_network_policy(endpoint: &HostedMcpEndpoint) -> (r: NetworkPolicy)
    ensures
        r@ == locked_policy(endpoint@),
{
    let target = NetworkTargetPattern {
        scheme: Some(NetworkScheme::Https),
        host_pattern: endpoint.host_pattern.clone(),
        port: endpoint.port,
    };
    let mut targets: Vec<NetworkTargetPattern> = Vec::new();
    targets.push(target);
    let policy = NetworkPolicy {
        allowed_targets: targets,
        deny_private_ip_ranges: true,
        max_egress_bytes: Some(MCP_NETWORK_EGRESS_LIMIT),
    };
    assert(policy@.allowed_targets =~= locked_policy(endpoint@).allowed_targets);
    policy
}

/// A trailing slash never changes which endpoint a path belongs to.
pub proof fn law_trailing_slash_is_ignored(path: Seq<char>)
    ensures
        normalized_path(path.push('/')) == normalized_path(path),
{
    assert(path.push('/').drop_last() =~= path);
}

/// Normalizing a path twice is the same as normalizing it once.
pub proof fn law_normalized_path_is_fixed(path: Seq<char>)
    ensures
        normalized_path(normalized_path(path)) == normalized_path(path),
{
    reveal_strlit("/");
    lemma_without_trailing_fixed(path, '/');
    if without_trailing(path, '/').len() == 0 {
        assert(without_trailing("/"@, '/') =~= without_trailing("/"@.drop_last(), '/'));
    }
}

/// The policy locked to an endpoint admits that endpoint and no other target.
pub proof fn law_locked_policy_admits_its_endpoint(endpoint: HostedMcpEndpointView)
    ensures
        locked_policy(endpoint).allowed_targets == seq![
            NetworkTargetPatternView {
                scheme: Some(NetworkScheme::Https),
                host_pattern: endpoint.host_pattern,
                port: endpoint.port,
            },
        ],
        target_allowed(endpoint, locked_policy(endpoint).allowed_targets[0]),
{
}

/// Two URLs whose components differ only in the letter case of the host and
/// in trailing slashes of the path name the same endpoint.
pub proof fn law_host_case_and_trailing_slash_are_ignored(a: UrlPartsView, b: UrlPartsView)
    requires
        plain_https(a),
        plain_https(b),
        ascii_lower(a.host->0) == ascii_lower(b.host->0),
        a.port == b.port,
        without_trailing(a.path, '/') == without_trailing(b.path, '/'),
    ensures
        endpoint_of_parts(a) == endpoint_of_parts(b),
{
}

/// A normalized path is the path up to its last character that is no slash; a path of
/// slashes, or none at all, is the root.
pub proof fn law_normalized_path_loses_trailing_slashes_only(path: Seq<char>)
    ensures
        ({
            let kept = normalized_path(path);
            let slashes = forall|k: int| 0 <= k < path.len() ==> #[trigger] path[k] == '/';
            &&& slashes ==> kept == "/"@
            &&& !slashes ==> kept.len() > 0 && kept.len() <= path.len() && kept == path.take(
                kept.len() as int,
            ) && kept.last() != '/' && forall|k: int|
                kept.len() <= k < path.len() ==> #[trigger] path[k] == '/'
        }),
{
    law_trailing_run_is_cut(path, '/');
    let kept = without_trailing(path, '/');
    if kept.len() > 0 {
        assert(path[kept.len() - 1] == kept.last());
    }
}

/// A URL names an endpoint exactly if it is HTTPS with a host, and without user,
/// password, query and fragment. The endpoint has its host in lower case, its port and
/// its normalized path.
pub proof fn law_plain_https_names_an_endpoint(parts: UrlPartsView)
    ensures
        endpoint_of_parts(parts) is Some <==> parts.scheme == "https"@ && parts.host is Some
            && parts.username.len() == 0 && parts.password is None && parts.query is None
            && parts.fragment is None,
        endpoint_of_parts(parts) matches Some(endpoint) ==> endpoint.host_pattern == ascii_lower(
            parts.host->0,
        ) && endpoint.port == parts.port && endpoint.path == normalized_path(parts.path),
{
}

/// A package has the endpoint that its URL names exactly if it is bundled with the host
/// and speaks MCP over HTTP, without a command and without arguments. No other package
/// has one.
pub proof fn law_only_bundled_http_packages_have_an_endpoint(package: ExtensionPackageView)
    ensures
        match package.manifest.runtime {
            ExtensionRuntimeView::Mcp { transport, command, args, url } => {
                let hosted = package.manifest.source == ManifestSource::HostBundled && transport
                    == "http"@ && command is None && args.len() == 0 && url is Some;
                &&& !hosted ==> endpoint_of_package(package) is None
                &&& hosted && parsed_url(url->0) is None ==> endpoint_of_package(package) is None
                &&& hosted && parsed_url(url->0) is Some ==> endpoint_of_package(package)
                    == endpoint_of_parts(parsed_url(url->0)->0)
            },
            _ => endpoint_of_package(package) is None,
        },
{
}

/// A target is an endpoint exactly if it is HTTPS on the same port and the two hosts
/// agree character by character, up to the case of ASCII letters.
pub proof fn law_target_is_the_endpoint_up_to_case(
    endpoint: HostedMcpEndpointView,
    target: NetworkTargetPatternView,
)
    ensures
        target_allowed(endpoint, target) <==> {
            &&& target.scheme == Some(NetworkScheme::Https)
            &&& target.port == endpoint.port
            &&& target.host_pattern.len() == endpoint.host_pattern.len()
            &&& forall|k: int|
                0 <= k < target.host_pattern.len() ==> ascii_lower_char(
                    #[trigger] target.host_pattern[k],
                ) == ascii_lower_char(endpoint.host_pattern[k])
        },
{
    let left = ascii_lower(target.host_pattern);
    let right = ascii_lower(endpoint.host_pattern);
    if left == right {
        assert(left.len() == right.len());
        assert forall|k: int| 0 <= k < target.host_pattern.len() implies ascii_lower_char(
            #[trigger] target.host_pattern[k],
        ) == ascii_lower_char(endpoint.host_pattern[k]) by {
            assert(left[k] == right[k]);
        }
    } else if left.len() == right.len() && forall|k: int|
        0 <= k < target.host_pattern.len() ==> ascii_lower_char(#[trigger] target.host_pattern[k])
            == ascii_lower_char(endpoint.host_pattern[k]) {
        assert forall|k: int| 0 <= k < left.len() implies left[k] == right[k] by {
            assert(ascii_lower_char(target.host_pattern[k]) == ascii_lower_char(
                endpoint.host_pattern[k],
            ));
        }
        assert(left =~= right);
    }
}

/// The policy of an endpoint admits HTTPS to its host and port and nothing else, no
/// private address, and two mebibytes.
pub proof fn law_locked_policy_admits_nothing_else(endpoint: HostedMcpEndpointView)
    ensures
        locked_policy(endpoint).allowed_targets.len() == 1,
        locked_policy(endpoint).allowed_targets[0].scheme == Some(NetworkScheme::Https),
        locked_policy(endpoint).allowed_targets[0].host_pattern == endpoint.host_pattern,
        locked_policy(endpoint).allowed_targets[0].port == endpoint.port,
        locked_policy(endpoint).deny_private_ip_ranges,
        locked_policy(endpoint).max_egress_bytes == Some(2097152u64),
{
}

} // verus!
