//! Discovery across every hosted MCP package of a registry.

use vstd::prelude::*;

use crate::capability::{CapabilityDescriptor, CapabilityDescriptorView};
use crate::mcp::discovery::{HostedMcpDiscoveryError, HostedMcpDiscoveryErrorView};
use crate::outcome::outcome;
use crate::package::{ExtensionPackage, ExtensionPackageView};
use crate::registry::{ExtensionRegistry, ExtensionRegistryView};

verus! {

/// Milliseconds a turn waits for discovery before it goes on without.
pub const OVERLAY_SURFACE_BUDGET_MS: u64 = 3000;

/// Why discovery for a hire failed. Either way the host's own capabilities are
/// served alone, nothing is cached and the turn goes on.
#[derive(Debug, PartialEq, Eq)]
pub enum HostedMcpOverlayError {
    /// A failure that a later attempt may not meet.
    Transient(String),
    /// A failure that needs a change of manifest or configuration.
    Permanent(String),
}

/// The mathematical value of a [`HostedMcpOverlayError`].
#[verifier::ext_equal]
pub enum HostedMcpOverlayErrorView {
    Transient(Seq<char>),
    Permanent(Seq<char>),
}

impl View for HostedMcpOverlayError {
    type V = HostedMcpOverlayErrorView;

    open spec fn view(&self) -> HostedMcpOverlayErrorView {
        match self {
            HostedMcpOverlayError::Transient(a) => HostedMcpOverlayErrorView::Transient(a@),
            HostedMcpOverlayError::Permanent(a) => HostedMcpOverlayErrorView::Permanent(a@),
        }
    }
}

impl DeepView for HostedMcpOverlayError {
    type V = HostedMcpOverlayErrorView;

    open spec fn deep_view(&self) -> HostedMcpOverlayErrorView {
        self@
    }
}

impl Clone for HostedMcpOverlayError {
    fn clone(&self) -> (r: Self)
        ensures
            r@ == self@,
    {
        match self {
            HostedMcpOverlayError::Transient(a) => HostedMcpOverlayError::Transient(a.clone()),
            HostedMcpOverlayError::Permanent(a) => HostedMcpOverlayError::Permanent(a.clone()),
        }
    }
}

/// The overlay error of a discovery error.
pub open spec fn overlay_error_of(error: HostedMcpDiscoveryErrorView) -> HostedMcpOverlayErrorView {
    match error {
        HostedMcpDiscoveryErrorView::Transient(reason) => HostedMcpOverlayErrorView::Transient(
            reason,
        ),
        HostedMcpDiscoveryErrorView::Permanent(reason) => HostedMcpOverlayErrorView::Permanent(
            reason,
        ),
    }
}

/// The overlay error of a discovery error.
pub fn overlay_error_from_discovery(error: HostedMcpDiscoveryError) -> (r: HostedMcpOverlayError)
    ensures
        r@ == overlay_error_of(error@),
{
    match error {
        HostedMcpDiscoveryError::Transient(reason) => HostedMcpOverlayError::Transient(reason),
        HostedMcpDiscoveryError::Permanent(reason) => HostedMcpOverlayError::Permanent(reason),
    }
}

/// Whether a package is a hosted MCP server.
pub open spec fn is_hosted() -> spec_fn(ExtensionPackageView) -> bool {
    |package: ExtensionPackageView| package.hosted_http_mcp
}

/// The hosted MCP packages of a registry, in registry order.
pub open spec fn hosted_packages_of(registry: ExtensionRegistryView) -> Seq<ExtensionPackageView> {
    registry.packages.filter(is_hosted())
}

/// The descriptors of the packages whose discovery succeeded, in order.
pub open spec fn merged(
    results: Seq<Result<Seq<CapabilityDescriptorView>, HostedMcpOverlayErrorView>>,
) -> Seq<CapabilityDescriptorView>
    decreases results.len(),
{
    if results.len() == 0 {
        Seq::empty()
    } else {
        merged(results.drop_last()) + match results.last() {
            Ok(descriptors) => descriptors,
            Err(_) => Seq::empty(),
        }
    }
}

/// The mathematical value of a list of discovery results.
pub open spec fn result_views(
    results: Seq<Result<Vec<CapabilityDescriptor>, HostedMcpOverlayError>>,
) -> Seq<Result<Seq<CapabilityDescriptorView>, HostedMcpOverlayErrorView>> {
    results.map_values(
        |r: Result<Vec<CapabilityDescriptor>, HostedMcpOverlayError>| outcome(r),
    )
}

/// What discovery gives for a registry. `answer` holds one result for each
/// hosted package, or is `None` if the budget ran out.
pub open spec fn discovered_of(
    registry: ExtensionRegistryView,
    answer: Option<Seq<Result<Seq<CapabilityDescriptorView>, HostedMcpOverlayErrorView>>>,
) -> Seq<CapabilityDescriptorView> {
    match answer {
        None => Seq::empty(),
        Some(results) => {
            let packages = hosted_packages_of(registry);
            if results.len() <= packages.len() {
                merged(results)
            } else {
                merged(results.take(packages.len() as int))
            }
        },
    }
}

/// The hosted MCP packages of a registry, in registry order.
pub fn hosted_packages(registry: &ExtensionRegistry) -> (r: Vec<ExtensionPackage>)
    ensures
        r.deep_view() == hosted_packages_of(registry@),
{
    let mut out: Vec<ExtensionPackage> = Vec::new();
    let ghost views = registry.packages.deep_view();
    let mut i: usize = 0;
    proof {
        reveal(Seq::filter);
    }
    assert(out.deep_view() =~= views.take(0).filter(is_hosted()));
    while i < registry.packages.len()
        invariant
            views == registry.packages.deep_view(),
            i <= registry.packages@.len(),
            out.deep_view() == views.take(i as int).filter(is_hosted()),
        decreases registry.packages@.len() - i,
    {
        let ghost before = out.deep_view();
        proof {
            reveal(Seq::filter);
            assert(views.take(i + 1).drop_last() =~= views.take(i as int));
            assert(views.take(i + 1).last() == registry.packages@[i as int]@);
        }
        if registry.packages[i].hosted_http_mcp {
            let package = registry.packages[i].clone();
            let ghost added = package@;
            out.push(package);
            assert(out.deep_view() =~= before.push(added));
        }
        i = i + 1;
    }
    assert(views.take(views.len() as int) =~= views);
    out
}

/// The discovered descriptors of a hire across every hosted MCP package.
///
/// A package whose discovery failed adds nothing, and neither does any package
/// once the budget ran out: the turn then goes on without.
pub fn discover_overlay_capabilities_for_hire(
    registry: &ExtensionRegistry,
    answer: Option<Vec<Result<Vec<CapabilityDescriptor>, HostedMcpOverlayError>>>,
) -> (r: Vec<CapabilityDescriptor>)
    ensures
        r.deep_view() == discovered_of(
            registry@,
            match answer {
                Some(results) => Some(result_views(results@)),
                None => None,
            },
        ),
{
    let mut out: Vec<CapabilityDescriptor> = Vec::new();
    assert(out.deep_view() =~= Seq::empty());
    let results = match answer {
        None => return out,
        Some(results) => results,
    };
    let packages = hosted_packages(registry);
    let count: usize = if results.len() <= packages.len() {
        results.len()
    } else {
        packages.len()
    };
    let ghost views = result_views(results@);
    let mut i: usize = 0;
    assert(out.deep_view() =~= merged(views.take(0)));
    while i < count
        invariant
            views == result_views(results@),
            i <= count <= results@.len(),
            out.deep_view() == merged(views.take(i as int)),
        decreases count - i,
    {
        proof {
            assert(views.take(i + 1).drop_last() =~= views.take(i as int));
            assert(views.take(i + 1).last() == outcome(results@[i as int]));
        }
        match &results[i] {
            Ok(descriptors) => {
                let ghost before = out.deep_view();
                let ghost added = descriptors.deep_view();
                let mut k: usize = 0;
                assert(before + added.take(0) =~= before);
                while k < descriptors.len()
                    invariant
                        k <= descriptors@.len(),
                        added == descriptors.deep_view(),
                        out.deep_view() == before + added.take(k as int),
                    decreases descriptors@.len() - k,
                {
                    let ghost so_far = out.deep_view();
                    let descriptor = descriptors[k].clone();
                    let ghost one = descriptor@;
                    out.push(descriptor);
                    assert(out.deep_view() =~= so_far.push(one));
                    assert(so_far.push(one) =~= before + added.take(k + 1));
                    k = k + 1;
                }
                assert(added.take(added.len() as int) =~= added);
            },
            Err(_) => {
                assert(out.deep_view() + Seq::<CapabilityDescriptorView>::empty()
                    =~= out.deep_view());
            },
        }
        i = i + 1;
    }
    assert(views.take(views.len() as int) =~= views);
    out
}

/// A package whose discovery failed leaves the others as they are.
pub proof fn law_failed_package_leaves_the_others(
    before: Seq<Result<Seq<CapabilityDescriptorView>, HostedMcpOverlayErrorView>>,
    error: HostedMcpOverlayErrorView,
    after: Seq<Result<Seq<CapabilityDescriptorView>, HostedMcpOverlayErrorView>>,
)
    ensures
        merged(
            before + seq![
                Err::<Seq<CapabilityDescriptorView>, HostedMcpOverlayErrorView>(error),
            ] + after,
        ) == merged(before) + merged(after),
    decreases after.len(),
{
    let failed = seq![Err::<Seq<CapabilityDescriptorView>, HostedMcpOverlayErrorView>(error)];
    let all = before + failed + after;
    if after.len() == 0 {
        assert(all.drop_last() =~= before);
        assert(merged(all) =~= merged(before) + merged(after));
    } else {
        law_failed_package_leaves_the_others(before, error, after.drop_last());
        assert(all.drop_last() =~= before + failed + after.drop_last());
        assert(all.last() == after.last());
        assert(merged(all) =~= merged(before) + merged(after));
    }
}

/// When the budget runs out, or no package is a hosted MCP server, nothing is
/// discovered.
pub proof fn law_no_answer_discovers_nothing(
    registry: ExtensionRegistryView,
    answer: Option<Seq<Result<Seq<CapabilityDescriptorView>, HostedMcpOverlayErrorView>>>,
)
    requires
        answer is None || hosted_packages_of(registry).len() == 0,
    ensures
        discovered_of(registry, answer).len() == 0,
{
}

/// The merged discoveries are those of each package that answered, one after the
/// other: another answer adds its descriptors at the end, another failure nothing.
pub proof fn law_each_answer_adds_its_descriptors(
    results: Seq<Result<Seq<CapabilityDescriptorView>, HostedMcpOverlayErrorView>>,
    descriptors: Seq<CapabilityDescriptorView>,
    error: HostedMcpOverlayErrorView,
)
    ensures
        merged(Seq::empty()).len() == 0,
        merged(results.push(Ok(descriptors))) == merged(results) + descriptors,
        merged(results.push(Err(error))) == merged(results),
{
    let answered = results.push(
        Ok::<Seq<CapabilityDescriptorView>, HostedMcpOverlayErrorView>(descriptors),
    );
    let failed = results.push(
        Err::<Seq<CapabilityDescriptorView>, HostedMcpOverlayErrorView>(error),
    );
    assert(answered.drop_last() =~= results);
    assert(failed.drop_last() =~= results);
    assert(merged(results) + Seq::<CapabilityDescriptorView>::empty() =~= merged(results));
}

/// A registered package is asked exactly if it is a hosted MCP server, after those
/// registered before it.
pub proof fn law_each_hosted_package_is_asked(
    registry: ExtensionRegistryView,
    package: ExtensionPackageView,
)
    ensures
        registry.packages.len() == 0 ==> hosted_packages_of(registry).len() == 0,
        ({
            let more = ExtensionRegistryView {
                packages: registry.packages.push(package),
                ..registry
            };
            hosted_packages_of(more) == if package.hosted_http_mcp {
                hosted_packages_of(registry).push(package)
            } else {
                hosted_packages_of(registry)
            }
        }),
{
    reveal(Seq::filter);
    assert(registry.packages.push(package).drop_last() =~= registry.packages);
}

/// Discovery gives what the hosted packages answered, and nothing if the time ran out.
pub proof fn law_discovery_gives_what_was_answered(
    registry: ExtensionRegistryView,
    results: Seq<Result<Seq<CapabilityDescriptorView>, HostedMcpOverlayErrorView>>,
)
    ensures
        discovered_of(registry, None).len() == 0,
        results.len() <= hosted_packages_of(registry).len() ==> discovered_of(
            registry,
            Some(results),
        ) == merged(results),
{
}

/// Answers beyond the hosted packages are not taken.
pub proof fn law_surplus_answers_are_dropped(
    registry: ExtensionRegistryView,
    results: Seq<Result<Seq<CapabilityDescriptorView>, HostedMcpOverlayErrorView>>,
)
    requires
        results.len() > hosted_packages_of(registry).len(),
    ensures
        discovered_of(registry, Some(results)) == merged(
            results.take(hosted_packages_of(registry).len() as int),
        ),
{
}

} // verus!
