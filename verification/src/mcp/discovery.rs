//! Discovery of the tools a hosted MCP server offers.
//!
//! The host lists tools over the network; each function here decides one step
//! from the plain result of the step before.

use vstd::prelude::*;

use crate::ids::{CapabilityId, ExtensionId};
use crate::mcp::planner::MCP_RESPONSE_BODY_LIMIT;
use crate::outcome::outcome;
use crate::package::{
    ExtensionPackage, ExtensionPackageView, ExtensionRuntime, ExtensionRuntimeView,
};
use crate::scope::{ResourceScope, ResourceScopeView};
use crate::text::{joined, joined3};

verus! {

/// Why discovery of a hosted MCP server failed.
#[derive(Debug, PartialEq, Eq)]
pub enum HostedMcpDiscoveryError {
    /// A failure that a later attempt may not meet.
    Transient(String),
    /// A failure that every attempt meets.
    Permanent(String),
}

/// The mathematical value of a [`HostedMcpDiscoveryError`].
#[verifier::ext_equal]
pub enum HostedMcpDiscoveryErrorView {
    Transient(Seq<char>),
    Permanent(Seq<char>),
}

impl View for HostedMcpDiscoveryError {
    type V = HostedMcpDiscoveryErrorView;

    open spec fn view(&self) -> HostedMcpDiscoveryErrorView {
        match self {
            HostedMcpDiscoveryError::Transient(a) => HostedMcpDiscoveryErrorView::Transient(a@),
            HostedMcpDiscoveryError::Permanent(a) => HostedMcpDiscoveryErrorView::Permanent(a@),
        }
    }
}

impl DeepView for HostedMcpDiscoveryError {
    type V = HostedMcpDiscoveryErrorView;

    open spec fn deep_view(&self) -> HostedMcpDiscoveryErrorView {
        self@
    }
}

impl Clone for HostedMcpDiscoveryError {
    fn clone(&self) -> (r: Self)
        ensures
            r@ == self@,
    {
        match self {
            HostedMcpDiscoveryError::Transient(a) => HostedMcpDiscoveryError::Transient(a.clone()),
            HostedMcpDiscoveryError::Permanent(a) => HostedMcpDiscoveryError::Permanent(a.clone()),
        }
    }
}

/// A request to list the tools of a hosted MCP server.
#[derive(Debug, PartialEq, Eq)]
pub struct McpClientRequest {
    pub provider: ExtensionId,
    pub capability_id: CapabilityId,
    pub scope: ResourceScope,
    pub transport: String,
    pub command: Option<String>,
    pub args: Vec<String>,
    pub url: Option<String>,
    /// The JSON text of the input.
    pub input: String,
    pub max_output_bytes: u64,
}

/// The mathematical value of a [`McpClientRequest`].
#[verifier::ext_equal]
pub struct McpClientRequestView {
    pub provider: Seq<char>,
    pub capability_id: Seq<char>,
    pub scope: ResourceScopeView,
    pub transport: Seq<char>,
    pub command: Option<Seq<char>>,
    pub args: Seq<Seq<char>>,
    pub url: Option<Seq<char>>,
    pub input: Seq<char>,
    pub max_output_bytes: u64,
}

impl View for McpClientRequest {
    type V = McpClientRequestView;

    open spec fn view(&self) -> McpClientRequestView {
        McpClientRequestView {
            provider: self.provider@,
            capability_id: self.capability_id@,
            scope: self.scope@,
            transport: self.transport@,
            command: self.command.deep_view(),
            args: self.args.deep_view(),
            url: self.url.deep_view(),
            input: self.input@,
            max_output_bytes: self.max_output_bytes,
        }
    }
}

impl DeepView for McpClientRequest {
    type V = McpClientRequestView;

    open spec fn deep_view(&self) -> McpClientRequestView {
        self@
    }
}

impl Clone for McpClientRequest {
    fn clone(&self) -> (r: Self)
        ensures
            r@ == self@,
    {
        let r = McpClientRequest {
            provider: self.provider.clone(),
            capability_id: self.capability_id.clone(),
            scope: self.scope.clone(),
            transport: self.transport.clone(),
            command: self.command.clone(),
            args: self.args.clone(),
            url: self.url.clone(),
            input: self.input.clone(),
            max_output_bytes: self.max_output_bytes,
        };
        assert(r.command.deep_view() =~= self.command.deep_view());
        assert(r.args.deep_view() =~= self.args.deep_view());
        assert(r.url.deep_view() =~= self.url.deep_view());
        r
    }
}

/// Whether a package can be discovered at all: an MCP runtime that the host
/// recognises as a hosted HTTP server.
pub open spec fn discoverable(package: ExtensionPackageView) -> bool {
    package.manifest.runtime is Mcp && package.hosted_http_mcp
}

/// The error of a package that cannot be discovered.
pub open spec fn not_hosted(package: ExtensionPackageView) -> HostedMcpDiscoveryErrorView {
    HostedMcpDiscoveryErrorView::Permanent(
        "extension "@ + package.id + " is not a host-bundled hosted MCP provider"@,
    )
}

/// The tool-list request of a package, or why there is none. `prepared` is the
/// host's answer to registering the package for planning.
pub open spec fn request_of(
    package: ExtensionPackageView,
    scope: ResourceScopeView,
    prepared: Result<(), Seq<char>>,
) -> Result<McpClientRequestView, HostedMcpDiscoveryErrorView> {
    if !discoverable(package) {
        Err(not_hosted(package))
    } else if let Err(error) = prepared {
        Err(
            HostedMcpDiscoveryErrorView::Permanent(
                "failed to prepare hosted MCP discovery: "@ + error,
            ),
        )
    } else if package.manifest.capabilities.len() == 0 {
        Err(
            HostedMcpDiscoveryErrorView::Permanent(
                "hosted MCP provider "@ + package.id + " has no capability template"@,
            ),
        )
    } else {
        Ok(
            McpClientRequestView {
                provider: package.id,
                capability_id: package.manifest.capabilities[0].id,
                scope,
                transport: package.manifest.runtime->transport,
                command: package.manifest.runtime->command,
                args: package.manifest.runtime->args,
                url: package.manifest.runtime->url,
                input: "null"@,
                max_output_bytes: MCP_RESPONSE_BODY_LIMIT,
            },
        )
    }
}

/// The listed tools, or why they cannot be used. `Err` is the stable reason of
/// a failed listing.
pub open spec fn tools_of<T>(
    package: ExtensionPackageView,
    listed: Result<Seq<T>, Seq<char>>,
) -> Result<Seq<T>, HostedMcpDiscoveryErrorView> {
    match listed {
        Err(reason) => Err(HostedMcpDiscoveryErrorView::Transient(reason)),
        Ok(tools) => if tools.len() == 0 {
            Err(
                HostedMcpDiscoveryErrorView::Transient(
                    "hosted MCP provider "@ + package.id + " returned no discoverable tools"@,
                ),
            )
        } else {
            Ok(tools)
        },
    }
}

/// The package with its discovered tools, or why it could not be built.
pub open spec fn package_of(built: Result<ExtensionPackageView, Seq<char>>) -> Result<
    ExtensionPackageView,
    HostedMcpDiscoveryErrorView,
> {
    match built {
        Ok(package) => Ok(package),
        Err(reason) => Err(HostedMcpDiscoveryErrorView::Permanent(reason)),
    }
}

/// The result of a whole discovery, from what the host answers at each step.
pub open spec fn discovery_of<T>(
    package: ExtensionPackageView,
    scope: ResourceScopeView,
    prepared: Result<(), Seq<char>>,
    listed: Result<Seq<T>, Seq<char>>,
    built: Result<ExtensionPackageView, Seq<char>>,
) -> Result<ExtensionPackageView, HostedMcpDiscoveryErrorView> {
    match request_of(package, scope, prepared) {
        Err(error) => Err(error),
        Ok(_) => match tools_of(package, listed) {
            Err(error) => Err(error),
            Ok(_) => package_of(built),
        },
    }
}

/// Checks that a package is a hosted MCP provider.
pub fn check_discoverable(package: &ExtensionPackage) -> (r: Result<(), HostedMcpDiscoveryError>)
    ensures
        outcome(r) == (if discoverable(package@) {
            Ok::<(), HostedMcpDiscoveryErrorView>(())
        } else {
            Err(not_hosted(package@))
        }),
{
    let mcp = match &package.manifest.runtime {
        ExtensionRuntime::Mcp { transport: _, command: _, args: _, url: _ } => true,
        ExtensionRuntime::Other => false,
    };
    if mcp && package.hosted_http_mcp {
        Ok(())
    } else {
        Err(
            HostedMcpDiscoveryError::Permanent(
                joined3(
                    "extension ",
                    package.id.as_str(),
                    " is not a host-bundled hosted MCP provider",
                ),
            ),
        )
    }
}

/// The request that lists a package's tools, planned with the first capability
/// of its manifest as the template and with no input.
pub fn discovery_request(
    package: &ExtensionPackage,
    scope: ResourceScope,
    prepared: Result<(), String>,
) -> (r: Result<McpClientRequest, HostedMcpDiscoveryError>)
    ensures
        outcome(r) == request_of(package@, scope@, outcome(prepared)),
{
    match check_discoverable(package) {
        Err(error) => return Err(error),
        Ok(()) => {},
    }
    match prepared {
        Err(error) => {
            return Err(
                HostedMcpDiscoveryError::Permanent(
                    joined("failed to prepare hosted MCP discovery: ", error.as_str()),
                ),
            );
        },
        Ok(()) => {},
    }
    if package.manifest.capabilities.is_empty() {
        return Err(
            HostedMcpDiscoveryError::Permanent(
                joined3(
                    "hosted MCP provider ",
                    package.id.as_str(),
                    " has no capability template",
                ),
            ),
        );
    }
    let runtime = package.manifest.runtime.clone();
    match runtime {
        ExtensionRuntime::Mcp { transport, command, args, url } => Ok(
            McpClientRequest {
                provider: package.id.clone(),
                capability_id: package.manifest.capabilities[0].id.clone(),
                scope,
                transport,
                command,
                args,
                url,
                input: "null".to_string(),
                max_output_bytes: MCP_RESPONSE_BODY_LIMIT,
            },
        ),
        ExtensionRuntime::Other => Err(
            HostedMcpDiscoveryError::Permanent(
                joined3(
                    "extension ",
                    package.id.as_str(),
                    " is not a host-bundled hosted MCP provider",
                ),
            ),
        ),
    }
}

/// The listed tools. A failed listing, and a listing without tools, are
/// transient failures.
pub fn discovered_tools<T>(package: &ExtensionPackage, listed: Result<Vec<T>, String>) -> (r: Result<
    Vec<T>,
    HostedMcpDiscoveryError,
>)
    ensures
        match listed {
            Ok(tools) => match r {
                Ok(kept) => tools_of(package@, Ok(tools@)) == Ok::<
                    Seq<T>,
                    HostedMcpDiscoveryErrorView,
                >(kept@),
                Err(error) => tools_of(package@, Ok(tools@)) == Err::<
                    Seq<T>,
                    HostedMcpDiscoveryErrorView,
                >(error@),
            },
            Err(reason) => r is Err && tools_of::<T>(package@, Err(reason@)) == Err::<
                Seq<T>,
                HostedMcpDiscoveryErrorView,
            >(r->Err_0@),
        },
{
    match listed {
        Err(reason) => Err(HostedMcpDiscoveryError::Transient(reason)),
        Ok(tools) => if tools.is_empty() {
            Err(
                HostedMcpDiscoveryError::Transient(
                    joined3(
                        "hosted MCP provider ",
                        package.id.as_str(),
                        " returned no discoverable tools",
                    ),
                ),
            )
        } else {
            Ok(tools)
        },
    }
}

/// The package with its discovered tools; a package that cannot be built is a
/// permanent failure.
pub fn discovered_package(built: Result<ExtensionPackage, String>) -> (r: Result<
    ExtensionPackage,
    HostedMcpDiscoveryError,
>)
    ensures
        outcome(r) == package_of(outcome(built)),
{
    match built {
        Ok(package) => Ok(package),
        Err(reason) => Err(HostedMcpDiscoveryError::Permanent(reason)),
    }
}

/// A whole discovery, from what the host answers at each step: registering the
/// package for planning, listing its tools, and building the package anew.
pub fn discover_hosted_mcp_package<T>(
    package: &ExtensionPackage,
    scope: ResourceScope,
    prepared: Result<(), String>,
    listed: Result<Vec<T>, String>,
    built: Result<ExtensionPackage, String>,
) -> (r: Result<ExtensionPackage, HostedMcpDiscoveryError>)
    ensures
        outcome(r) == discovery_of::<T>(
            package@,
            scope@,
            outcome(prepared),
            match listed {
                Ok(tools) => Ok(tools@),
                Err(reason) => Err(reason@),
            },
            outcome(built),
        ),
{
    match discovery_request(package, scope, prepared) {
        Err(error) => Err(error),
        Ok(_) => match discovered_tools(package, listed) {
            Err(error) => Err(error),
            Ok(_) => discovered_package(built),
        },
    }
}

/// A package that is no hosted MCP provider fails permanently, whatever the
/// host would have answered.
pub proof fn law_only_hosted_packages_are_discovered<T>(
    package: ExtensionPackageView,
    scope: ResourceScopeView,
    prepared: Result<(), Seq<char>>,
    listed: Result<Seq<T>, Seq<char>>,
    built: Result<ExtensionPackageView, Seq<char>>,
)
    ensures
        discovery_of(package, scope, prepared, listed, built) is Ok ==> discoverable(package)
            && prepared is Ok && listed is Ok && listed->Ok_0.len() > 0 && built is Ok
            && discovery_of(package, scope, prepared, listed, built) == Ok::<
            ExtensionPackageView,
            HostedMcpDiscoveryErrorView,
        >(built->Ok_0),
        !discoverable(package) ==> discovery_of(package, scope, prepared, listed, built) == Err::<
            ExtensionPackageView,
            HostedMcpDiscoveryErrorView,
        >(not_hosted(package)),
{
}

/// The tools of a package are asked for exactly if it is a hosted MCP server that the
/// host prepared and that declares a capability. The request is for that package, its
/// first capability and the given scope, over the transport, command, arguments and URL
/// of its manifest, with no input and room for two mebibytes.
pub proof fn law_tools_are_asked_of_the_package_itself(
    package: ExtensionPackageView,
    scope: ResourceScopeView,
    prepared: Result<(), Seq<char>>,
)
    ensures
        request_of(package, scope, prepared) is Ok <==> package.manifest.runtime is Mcp
            && package.hosted_http_mcp && prepared is Ok && package.manifest.capabilities.len() > 0,
        request_of(package, scope, prepared) matches Err(error) ==> error is Permanent,
        request_of(package, scope, prepared) matches Ok(request) ==> {
            &&& request.provider == package.id
            &&& request.capability_id == package.manifest.capabilities[0].id
            &&& request.scope == scope
            &&& package.manifest.runtime == (ExtensionRuntimeView::Mcp {
                transport: request.transport,
                command: request.command,
                args: request.args,
                url: request.url,
            })
            &&& request.input == "null"@
            &&& request.max_output_bytes == 2097152
        },
{
}

/// A discovery succeeds exactly if the package can be asked, lists at least one tool and
/// can be built with them. A listing that failed or is empty may be tried again; every
/// other failure is for good, and each keeps the reason it was given.
pub proof fn law_discovery_fails_with_the_first_reason<T>(
    package: ExtensionPackageView,
    scope: ResourceScopeView,
    prepared: Result<(), Seq<char>>,
    listed: Result<Seq<T>, Seq<char>>,
    built: Result<ExtensionPackageView, Seq<char>>,
)
    ensures
        ({
            let result = discovery_of(package, scope, prepared, listed, built);
            let asked = request_of(package, scope, prepared) is Ok;
            let found = listed is Ok && listed->Ok_0.len() > 0;
            &&& result is Ok <==> asked && found && built is Ok
            &&& result is Ok ==> result->Ok_0 == built->Ok_0
            &&& !asked ==> result->Err_0 == request_of(package, scope, prepared)->Err_0
            &&& asked && listed is Err ==> result == Err::<
                ExtensionPackageView,
                HostedMcpDiscoveryErrorView,
            >(HostedMcpDiscoveryErrorView::Transient(listed->Err_0))
            &&& asked && listed is Ok && !found ==> result is Err && result->Err_0 is Transient
            &&& asked && found && built is Err ==> result == Err::<
                ExtensionPackageView,
                HostedMcpDiscoveryErrorView,
            >(HostedMcpDiscoveryErrorView::Permanent(built->Err_0))
            &&& found ==> tools_of(package, listed) == Ok::<Seq<T>, HostedMcpDiscoveryErrorView>(
                listed->Ok_0,
            )
        }),
{
}

/// A package that cannot be asked says why: it is no hosted server, the host could not
/// prepare it, or it declares no capability. So does one that lists no tool.
pub proof fn law_refused_packages_say_why<T>(
    package: ExtensionPackageView,
    scope: ResourceScopeView,
    prepared: Result<(), Seq<char>>,
    listed: Result<Seq<T>, Seq<char>>,
)
    ensures
        ({
            let result = request_of(package, scope, prepared);
            let hosted = package.manifest.runtime is Mcp && package.hosted_http_mcp;
            let fails = |reason: Seq<char>|
                Err::<McpClientRequestView, HostedMcpDiscoveryErrorView>(
                    HostedMcpDiscoveryErrorView::Permanent(reason),
                );
            &&& !hosted ==> result == fails(
                "extension "@ + package.id + " is not a host-bundled hosted MCP provider"@,
            )
            &&& hosted && prepared is Err ==> result == fails(
                "failed to prepare hosted MCP discovery: "@ + prepared->Err_0,
            )
            &&& hosted && prepared is Ok && package.manifest.capabilities.len() == 0 ==> result
                == fails(
                "hosted MCP provider "@ + package.id + " has no capability template"@,
            )
        }),
        listed is Ok && listed->Ok_0.len() == 0 ==> tools_of(package, listed) == Err::<
            Seq<T>,
            HostedMcpDiscoveryErrorView,
        >(
            HostedMcpDiscoveryErrorView::Transient(
                "hosted MCP provider "@ + package.id + " returned no discoverable tools"@,
            ),
        ),
{
}

} // verus!
