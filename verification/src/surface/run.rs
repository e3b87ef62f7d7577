//! A whole surface from the host's answers, and what holds of every surface.

use vstd::prelude::*;

use crate::capability::CapabilityDescriptorView;
use crate::json::root_string_member;
use crate::scope::hire_of;
use crate::surface::assemble::{
    descriptors_of, floor_run, ids_of, next_unseen, overlay_run, shows, surface_of,
    AnsweredDescriptor, AnsweredDescriptorView, SurfaceBuild, SurfaceBuildView, SurfacePhase,
    SurfaceStep,
};
use crate::surface::evaluate::{
    evaluation, invalid, schema_reference, CapabilityCatalog, CapabilityCatalogView,
    DescriptorAnswers, DescriptorAnswersView,
};
use crate::surface::policy::CapabilitySurfacePolicyView;
use crate::surface::version::{
    grants_in_order, law_version_ignores_discovered_capabilities, version_payload, versioned,
};
use crate::surface::{
    DescriptorSource, HostRuntimeError, HostRuntimeErrorView, VisibleCapabilityRequest,
    VisibleCapabilityRequestView, VisibleCapabilityView,
};

verus! {

/// Descriptors paired with the answers about them.
pub open spec fn answered(
    descriptors: Seq<CapabilityDescriptorView>,
    answers: Seq<DescriptorAnswersView>,
) -> Seq<AnsweredDescriptorView> {
    Seq::new(
        descriptors.len(),
        |i: int| AnsweredDescriptorView { descriptor: descriptors[i], answers: answers[i] },
    )
}

/// The floor that the rest of a build comes to.
pub open spec fn floor_comes_to(
    build: SurfaceBuildView,
    catalog: CapabilityCatalogView,
    request: VisibleCapabilityRequestView,
    floor: Seq<AnsweredDescriptorView>,
) -> Result<Seq<VisibleCapabilityView>, HostRuntimeErrorView> {
    match build.phase {
        SurfacePhase::Floor => floor_run(
            catalog,
            request,
            floor.skip(build.position as int),
            build.capabilities,
        ),
        _ => Ok(build.floor_part()),
    }
}

proof fn lemma_unseen_is_skipped(
    catalog: CapabilityCatalogView,
    request: VisibleCapabilityRequestView,
    discovered: Seq<AnsweredDescriptorView>,
    floor: Seq<VisibleCapabilityView>,
    shown: Seq<VisibleCapabilityView>,
    from: nat,
)
    requires
        from <= discovered.len(),
    ensures
        ({
            let at = next_unseen(descriptors_of(discovered), floor, from);
            &&& from <= at <= discovered.len()
            &&& overlay_run(catalog, request, discovered.skip(from as int), floor, shown)
                == overlay_run(catalog, request, discovered.skip(at as int), floor, shown)
        }),
    decreases discovered.len() - from,
{
    let descriptors = descriptors_of(discovered);
    if from < descriptors.len() && shows(floor, descriptors[from as int].id) {
        lemma_unseen_is_skipped(catalog, request, discovered, floor, shown, from + 1);
        let here = discovered.skip(from as int);
        assert(here[0] == discovered[from as int]);
        assert(here.drop_first() =~= discovered.skip(from as int + 1));
        if shown.len() >= request.policy.limit() {
            let at = next_unseen(descriptors, floor, from);
            assert(overlay_run(catalog, request, discovered.skip(at as int), floor, shown)
                == shown);
        }
    }
}

/// Asking for the next step changes neither the surface nor the floor that a
/// build comes to.
pub proof fn lemma_advancing_keeps_the_outcome(
    build: SurfaceBuildView,
    catalog: CapabilityCatalogView,
    request: VisibleCapabilityRequestView,
    floor: Seq<AnsweredDescriptorView>,
    discovered: Seq<AnsweredDescriptorView>,
)
    requires
        build.serves(catalog, request, floor, discovered),
    ensures
        build.advanced().serves(catalog, request, floor, discovered),
        build.advanced().position >= build.position,
        build.advanced().comes_to(catalog, request, floor, discovered) == build.comes_to(
            catalog,
            request,
            floor,
            discovered,
        ),
        floor_comes_to(build.advanced(), catalog, request, floor) == floor_comes_to(
            build,
            catalog,
            request,
            floor,
        ),
{
    let after = build.advanced();
    match build.phase {
        SurfacePhase::Floor => {
            if build.pending() is None {
                assert(build.position == floor.len() || build.capabilities.len()
                    >= request.policy.limit());
                assert(floor_run(
                    catalog,
                    request,
                    floor.skip(build.position as int),
                    build.capabilities,
                ) == Ok::<Seq<VisibleCapabilityView>, HostRuntimeErrorView>(build.capabilities));
                assert(after.floor_part() =~= build.capabilities);
            }
        },
        SurfacePhase::Overlay => {
            lemma_unseen_is_skipped(
                catalog,
                request,
                discovered,
                build.floor_part(),
                build.capabilities,
                build.position as nat,
            );
            let at = next_unseen(build.overlay, build.floor_part(), build.position as nat);
            assert(after.floor_part() == build.floor_part());
            if !(build.capabilities.len() < build.max && at < build.overlay.len()) {
                assert(overlay_run(
                    catalog,
                    request,
                    discovered.skip(at as int),
                    build.floor_part(),
                    build.capabilities,
                ) == build.capabilities);
            }
        },
        _ => {},
    }
}

/// Evaluating the pending descriptor changes neither the surface nor the floor
/// that a build comes to; if it fails, its error is what the build comes to.
pub proof fn lemma_evaluating_keeps_the_outcome(
    build: SurfaceBuildView,
    catalog: CapabilityCatalogView,
    request: VisibleCapabilityRequestView,
    floor: Seq<AnsweredDescriptorView>,
    discovered: Seq<AnsweredDescriptorView>,
    answers: DescriptorAnswersView,
)
    requires
        build.serves(catalog, request, floor, discovered),
        build.pending() is Some,
        build.phase == SurfacePhase::Floor ==> answers == floor[build.position as int].answers,
        build.phase == SurfacePhase::Overlay ==> answers
            == discovered[build.position as int].answers,
    ensures
        ({
            let (descriptor, source) = build.pending()->0;
            match evaluation(
                catalog,
                request,
                descriptor,
                source,
                schema_reference(descriptor),
                answers,
            ) {
                Err(error) => build.comes_to(catalog, request, floor, discovered) == Err::<
                    Seq<VisibleCapabilityView>,
                    HostRuntimeErrorView,
                >(error),
                Ok(shown) => {
                    let after = build.with_evaluation(shown);
                    &&& after.comes_to(catalog, request, floor, discovered) == build.comes_to(
                        catalog,
                        request,
                        floor,
                        discovered,
                    )
                    &&& floor_comes_to(after, catalog, request, floor) == floor_comes_to(
                        build,
                        catalog,
                        request,
                        floor,
                    )
                    &&& after.max == build.max
                    &&& after.position == build.position + 1
                },
            }
        }),
{
    let (descriptor, source) = build.pending()->0;
    match build.phase {
        SurfacePhase::Floor => {
            let here = floor.skip(build.position as int);
            assert(here[0] == floor[build.position as int]);
            assert(here.drop_first() =~= floor.skip(build.position + 1));
            assert(here[0].descriptor == descriptor);
        },
        SurfacePhase::Overlay => {
            let here = discovered.skip(build.position as int);
            assert(here[0] == discovered[build.position as int]);
            assert(here.drop_first() =~= discovered.skip(build.position + 1));
            assert(here[0].descriptor == descriptor);
            if let Ok(Some(capability)) = evaluation(
                catalog,
                request,
                descriptor,
                source,
                schema_reference(descriptor),
                answers,
            ) {
                let after = build.with_evaluation(Some(capability));
                assert(after.floor_part() =~= build.floor_part());
            }
        },
        _ => {},
    }
}

/// Builds a whole surface from the host's answers: its verdict on the execution
/// context, one set of answers for each of its own descriptors, and the
/// discovered descriptors with the answers about them.
///
/// The host's own capabilities always come first. Discovered ones follow only
/// for an agent with an overlay attached, and never replace one of the host's.
pub fn visible_capabilities(
    catalog: &CapabilityCatalog,
    request: &VisibleCapabilityRequest,
    context_check: Result<(), String>,
    floor_answers: &Vec<DescriptorAnswers>,
    discovered: &Vec<AnsweredDescriptor>,
) -> (r: Result<SurfaceBuild, HostRuntimeError>)
    requires
        floor_answers@.len() == catalog@.registry.capabilities.len(),
    ensures
        match context_check {
            Err(reason) => r matches Err(error) && error@ == invalid(
                "invalid execution context: "@ + reason@,
            ),
            Ok(()) => {
                let floor = answered(catalog@.registry.capabilities, floor_answers.deep_view());
                match surface_of(catalog@, request@, floor, discovered.deep_view()) {
                    Err(error) => r matches Err(found) && found@ == error,
                    Ok(surface) => r matches Ok(build) && build@.well_formed()
                        && build@.phase == SurfacePhase::Finished && build@.capabilities
                        == surface && floor_run(catalog@, request@, floor, Seq::empty()) == Ok::<
                        Seq<VisibleCapabilityView>,
                        HostRuntimeErrorView,
                    >(build@.floor_part()),
                }
            },
        },
{
    let mut build = match SurfaceBuild::start(catalog, request, context_check) {
        Err(error) => return Err(error),
        Ok(build) => build,
    };
    let ghost floor = answered(catalog@.registry.capabilities, floor_answers.deep_view());
    let ghost found = discovered.deep_view();
    let mut descriptors: Vec<crate::capability::CapabilityDescriptor> = Vec::new();
    let mut i: usize = 0;
    assert(descriptors.deep_view() =~= descriptors_of(found.take(0)));
    while i < discovered.len()
        invariant
            found == discovered.deep_view(),
            i <= discovered@.len(),
            descriptors.deep_view() == descriptors_of(found.take(i as int)),
        decreases discovered@.len() - i,
    {
        let ghost before = descriptors.deep_view();
        let descriptor = discovered[i].descriptor.clone();
        let ghost added = descriptor@;
        descriptors.push(descriptor);
        assert(descriptors.deep_view() =~= before.push(added));
        assert(before.push(added) =~= descriptors_of(found.take(i + 1)));
        i = i + 1;
    }
    assert(found.take(found.len() as int) =~= found);
    proof {
        assert(descriptors_of(floor) =~= catalog@.registry.capabilities);
        assert(floor.skip(0) =~= floor);
        assert(build@.serves(catalog@, request@, floor, found));
    }
    loop
        invariant
            build@.serves(catalog@, request@, floor, found),
            build@.comes_to(catalog@, request@, floor, found) == surface_of(
                catalog@,
                request@,
                floor,
                found,
            ),
            floor_comes_to(build@, catalog@, request@, floor) == floor_run(
                catalog@,
                request@,
                floor,
                Seq::empty(),
            ),
            floor == answered(catalog@.registry.capabilities, floor_answers.deep_view()),
            floor.len() == floor_answers@.len(),
            found == discovered.deep_view(),
            descriptors.deep_view() == descriptors_of(found),
            context_check is Ok,
        decreases
                (match build@.phase {
                    SurfacePhase::Floor => 3int,
                    SurfacePhase::AwaitOverlay => 2,
                    SurfacePhase::Overlay => 1,
                    SurfacePhase::Finished => 0,
                }),
                (match build@.phase {
                    SurfacePhase::Floor => floor.len() - build@.position,
                    _ => found.len() - build@.position,
                }),
    {
        proof {
            lemma_advancing_keeps_the_outcome(build@, catalog@, request@, floor, found);
        }
        let step = build.next_step();
        match step {
            SurfaceStep::Finish => {
                return Ok(build);
            },
            SurfaceStep::Discover => {
                assert(found.skip(0) =~= found);
                proof {
                    assert(build@.floor_part() =~= build@.capabilities);
                }
                build.discovered(descriptors.clone());
                proof {
                    assert(build@.overlay =~= descriptors_of(found));
                    assert(build@.floor_part() =~= build@.capabilities);
                }
            },
            SurfaceStep::Evaluate { descriptor: _, source } => {
                let at: usize = build.position();
                let ghost here = build@;
                let outcome_of_step = match source {
                    DescriptorSource::Floor => {
                        proof {
                            lemma_evaluating_keeps_the_outcome(
                                here,
                                catalog@,
                                request@,
                                floor,
                                found,
                                floor_answers@[at as int]@,
                            );
                        }
                        build.evaluated(catalog, request, &floor_answers[at])
                    },
                    DescriptorSource::Overlay => {
                        proof {
                            lemma_evaluating_keeps_the_outcome(
                                here,
                                catalog@,
                                request@,
                                floor,
                                found,
                                discovered@[at as int].answers@,
                            );
                        }
                        build.evaluated(catalog, request, &discovered[at].answers)
                    },
                };
                match outcome_of_step {
                    Err(error) => return Err(error),
                    Ok(()) => {},
                }
            },
        }
    }
}

proof fn lemma_floor_run(
    catalog: CapabilityCatalogView,
    request: VisibleCapabilityRequestView,
    items: Seq<AnsweredDescriptorView>,
    shown: Seq<VisibleCapabilityView>,
)
    requires
        shown.len() <= request.policy.limit(),
    ensures
        floor_run(catalog, request, items, shown) matches Ok(floor) ==> {
            &&& shown.len() <= floor.len() <= request.policy.limit()
            &&& floor.take(shown.len() as int) == shown
        },
    decreases items.len(),
{
    if items.len() > 0 && shown.len() < request.policy.limit() {
        match evaluation(
            catalog,
            request,
            items[0].descriptor,
            DescriptorSource::Floor,
            schema_reference(items[0].descriptor),
            items[0].answers,
        ) {
            Err(_) => {},
            Ok(None) => {
                lemma_floor_run(catalog, request, items.drop_first(), shown);
            },
            Ok(Some(capability)) => {
                lemma_floor_run(catalog, request, items.drop_first(), shown.push(capability));
                if let Ok(floor) = floor_run(
                    catalog,
                    request,
                    items.drop_first(),
                    shown.push(capability),
                ) {
                    assert(floor.take(shown.len() as int) =~= floor.take(
                        shown.push(capability).len() as int,
                    ).take(shown.len() as int));
                    assert(shown.push(capability).take(shown.len() as int) =~= shown);
                }
            },
        }
    } else {
        assert(shown.take(shown.len() as int) =~= shown);
    }
}

proof fn lemma_overlay_run(
    catalog: CapabilityCatalogView,
    request: VisibleCapabilityRequestView,
    items: Seq<AnsweredDescriptorView>,
    floor: Seq<VisibleCapabilityView>,
    shown: Seq<VisibleCapabilityView>,
)
    requires
        shown.len() <= request.policy.limit(),
    ensures
        ({
            let surface = overlay_run(catalog, request, items, floor, shown);
            &&& shown.len() <= surface.len() <= request.policy.limit()
            &&& surface.take(shown.len() as int) == shown
            &&& forall|k: int|
                shown.len() <= k < surface.len() ==> !shows(
                    floor,
                    (#[trigger] surface[k]).descriptor.id,
                )
        }),
    decreases items.len(),
{
    if items.len() > 0 && shown.len() < request.policy.limit() {
        if shows(floor, items[0].descriptor.id) {
            lemma_overlay_run(catalog, request, items.drop_first(), floor, shown);
        } else {
            match evaluation(
                catalog,
                request,
                items[0].descriptor,
                DescriptorSource::Overlay,
                schema_reference(items[0].descriptor),
                items[0].answers,
            ) {
                Ok(Some(capability)) => {
                    let longer = shown.push(capability);
                    lemma_overlay_run(catalog, request, items.drop_first(), floor, longer);
                    let surface = overlay_run(catalog, request, items, floor, shown);
                    assert(surface.take(shown.len() as int) =~= surface.take(
                        longer.len() as int,
                    ).take(shown.len() as int));
                    assert(longer.take(shown.len() as int) =~= shown);
                    assert(surface[shown.len() as int] == surface.take(
                        longer.len() as int,
                    )[shown.len() as int]);
                    assert(capability.descriptor.id == items[0].descriptor.id);
                },
                _ => {
                    lemma_overlay_run(catalog, request, items.drop_first(), floor, shown);
                },
            }
        }
    } else {
        assert(shown.take(shown.len() as int) =~= shown);
    }
}

/// A surface never shows more than its policy allows.
pub proof fn law_surface_is_bounded(
    catalog: CapabilityCatalogView,
    request: VisibleCapabilityRequestView,
    floor: Seq<AnsweredDescriptorView>,
    discovered: Seq<AnsweredDescriptorView>,
)
    ensures
        surface_of(catalog, request, floor, discovered) matches Ok(surface) ==> surface.len()
            <= request.policy.limit(),
{
    lemma_floor_run(catalog, request, floor, Seq::empty());
    if let Ok(shown) = floor_run(catalog, request, floor, Seq::empty()) {
        lemma_overlay_run(catalog, request, discovered, shown, shown);
    }
}

/// A request with its limit set.
pub open spec fn with_limit(
    request: VisibleCapabilityRequestView,
    limit: usize,
) -> VisibleCapabilityRequestView {
    VisibleCapabilityRequestView {
        policy: CapabilitySurfacePolicyView { max_capabilities: Some(limit), ..request.policy },
        ..request
    }
}

/// The first entries of a surface, at most `limit` of them.
pub open spec fn first_of(
    surface: Seq<VisibleCapabilityView>,
    limit: usize,
) -> Seq<VisibleCapabilityView> {
    if surface.len() <= limit {
        surface
    } else {
        surface.take(limit as int)
    }
}

proof fn lemma_limited_floor(
    catalog: CapabilityCatalogView,
    request: VisibleCapabilityRequestView,
    limit: usize,
    items: Seq<AnsweredDescriptorView>,
    shown: Seq<VisibleCapabilityView>,
)
    requires
        shown.len() <= limit <= request.policy.limit(),
    ensures
        ({
            let limited = floor_run(catalog, with_limit(request, limit), items, shown);
            match floor_run(catalog, request, items, shown) {
                Ok(floor) => limited == Ok::<Seq<VisibleCapabilityView>, HostRuntimeErrorView>(
                    first_of(floor, limit),
                ),
                Err(error) => limited == Err::<Seq<VisibleCapabilityView>, HostRuntimeErrorView>(
                    error,
                ) || (limited is Ok && limited->Ok_0.len() == limit),
            }
        }),
    decreases items.len(),
{
    if items.len() > 0 && shown.len() < limit {
        let item = items[0];
        let reference = schema_reference(item.descriptor);
        let source = DescriptorSource::Floor;
        assert(evaluation(
            catalog,
            with_limit(request, limit),
            item.descriptor,
            source,
            reference,
            item.answers,
        ) == evaluation(catalog, request, item.descriptor, source, reference, item.answers));
        match evaluation(catalog, request, item.descriptor, source, reference, item.answers) {
            Err(_) => {},
            Ok(None) => {
                lemma_limited_floor(catalog, request, limit, items.drop_first(), shown);
            },
            Ok(Some(capability)) => {
                lemma_limited_floor(
                    catalog,
                    request,
                    limit,
                    items.drop_first(),
                    shown.push(capability),
                );
            },
        }
    } else {
        lemma_floor_run(catalog, request, items, shown);
        if let Ok(floor) = floor_run(catalog, request, items, shown) {
            assert(floor.take(floor.len() as int) =~= floor);
        }
    }
}

proof fn lemma_limited_overlay(
    catalog: CapabilityCatalogView,
    request: VisibleCapabilityRequestView,
    limit: usize,
    items: Seq<AnsweredDescriptorView>,
    floor: Seq<VisibleCapabilityView>,
    shown: Seq<VisibleCapabilityView>,
)
    requires
        shown.len() <= limit <= request.policy.limit(),
    ensures
        overlay_run(catalog, with_limit(request, limit), items, floor, shown) == first_of(
            overlay_run(catalog, request, items, floor, shown),
            limit,
        ),
    decreases items.len(),
{
    if items.len() > 0 && shown.len() < limit {
        let item = items[0];
        let reference = schema_reference(item.descriptor);
        let source = DescriptorSource::Overlay;
        assert(evaluation(
            catalog,
            with_limit(request, limit),
            item.descriptor,
            source,
            reference,
            item.answers,
        ) == evaluation(catalog, request, item.descriptor, source, reference, item.answers));
        lemma_limited_overlay(catalog, request, limit, items.drop_first(), floor, shown);
        if let Ok(Some(capability)) = evaluation(
            catalog,
            request,
            item.descriptor,
            source,
            reference,
            item.answers,
        ) {
            lemma_limited_overlay(
                catalog,
                request,
                limit,
                items.drop_first(),
                floor,
                shown.push(capability),
            );
        }
    } else {
        lemma_overlay_run(catalog, request, items, floor, shown);
    }
}

/// A lower limit cuts the surface off and changes nothing else: it gives the first
/// entries of the surface with the higher limit, or with none. Where that surface
/// fails, the cut one fails alike or is full before the failure is met.
pub proof fn law_limit_takes_the_first_entries(
    catalog: CapabilityCatalogView,
    request: VisibleCapabilityRequestView,
    limit: usize,
    floor: Seq<AnsweredDescriptorView>,
    discovered: Seq<AnsweredDescriptorView>,
)
    requires
        limit <= request.policy.limit(),
    ensures
        ({
            let limited = surface_of(catalog, with_limit(request, limit), floor, discovered);
            match surface_of(catalog, request, floor, discovered) {
                Ok(surface) => limited == Ok::<Seq<VisibleCapabilityView>, HostRuntimeErrorView>(
                    first_of(surface, limit),
                ),
                Err(error) => limited == Err::<Seq<VisibleCapabilityView>, HostRuntimeErrorView>(
                    error,
                ) || (limited is Ok && limited->Ok_0.len() == limit),
            }
        }),
{
    lemma_limited_floor(catalog, request, limit, floor, Seq::empty());
    law_floor_comes_first_and_wins(catalog, request, floor, discovered);
    if let Ok(shown) = floor_run(catalog, request, floor, Seq::empty()) {
        if shown.len() < limit {
            lemma_limited_overlay(catalog, request, limit, discovered, shown, shown);
        } else {
            let surface = surface_of(catalog, request, floor, discovered)->Ok_0;
            assert(first_of(surface, limit) =~= first_of(shown, limit)) by {
                assert(surface.take(shown.len() as int).take(limit as int) =~= surface.take(
                    limit as int,
                ));
            }
        }
    }
}

/// A limit of zero gives the empty surface.
pub proof fn law_zero_limit_shows_nothing(
    catalog: CapabilityCatalogView,
    request: VisibleCapabilityRequestView,
    floor: Seq<AnsweredDescriptorView>,
    discovered: Seq<AnsweredDescriptorView>,
)
    requires
        request.policy.max_capabilities == Some(0usize),
    ensures
        surface_of(catalog, request, floor, discovered) == Ok::<
            Seq<VisibleCapabilityView>,
            HostRuntimeErrorView,
        >(Seq::empty()),
{
}

/// Whatever is discovered, the surface starts with the whole floor and fails
/// only if the floor does; and no discovered capability has the id of one on
/// the floor.
pub proof fn law_floor_comes_first_and_wins(
    catalog: CapabilityCatalogView,
    request: VisibleCapabilityRequestView,
    floor: Seq<AnsweredDescriptorView>,
    discovered: Seq<AnsweredDescriptorView>,
)
    ensures
        match floor_run(catalog, request, floor, Seq::empty()) {
            Err(error) => surface_of(catalog, request, floor, discovered) == Err::<
                Seq<VisibleCapabilityView>,
                HostRuntimeErrorView,
            >(error),
            Ok(shown) => surface_of(catalog, request, floor, discovered) matches Ok(surface) && {
                &&& shown.len() <= surface.len()
                &&& surface.take(shown.len() as int) == shown
                &&& forall|k: int|
                    shown.len() <= k < surface.len() ==> !shows(
                        shown,
                        (#[trigger] surface[k]).descriptor.id,
                    )
            },
        },
{
    lemma_floor_run(catalog, request, floor, Seq::empty());
    if let Ok(shown) = floor_run(catalog, request, floor, Seq::empty()) {
        lemma_overlay_run(catalog, request, discovered, shown, shown);
        assert(shown.take(shown.len() as int) =~= shown);
    }
}

/// Without an agent, or without an overlay, the surface is the floor, whatever
/// discovery would have given.
pub proof fn law_no_discovery_without_an_agent(
    catalog: CapabilityCatalogView,
    request: VisibleCapabilityRequestView,
    floor: Seq<AnsweredDescriptorView>,
    discovered: Seq<AnsweredDescriptorView>,
)
    requires
        !catalog.has_overlay || request.context.resource_scope.agent_id is None,
    ensures
        surface_of(catalog, request, floor, discovered) == floor_run(
            catalog,
            request,
            floor,
            Seq::empty(),
        ),
{
}

/// A build for a request without an agent, or without an overlay, never asks
/// for discovery.
pub proof fn law_discovery_is_never_asked_without_an_agent(
    build: SurfaceBuildView,
    catalog: CapabilityCatalogView,
    request: VisibleCapabilityRequestView,
    floor: Seq<AnsweredDescriptorView>,
    discovered: Seq<AnsweredDescriptorView>,
)
    requires
        build.serves(catalog, request, floor, discovered),
        !catalog.has_overlay || request.context.resource_scope.agent_id is None,
    ensures
        !(build.advanced().asks() is Discover),
{
}

/// A build asks for discovery only where an overlay is attached and the request's
/// own scope names a hire: the hire whose tools are then discovered.
pub proof fn law_discovery_is_asked_for_the_hire_of_the_request(
    build: SurfaceBuildView,
    catalog: CapabilityCatalogView,
    request: VisibleCapabilityRequestView,
    floor: Seq<AnsweredDescriptorView>,
    discovered: Seq<AnsweredDescriptorView>,
)
    requires
        build.serves(catalog, request, floor, discovered),
        build.advanced().asks() is Discover,
    ensures
        catalog.has_overlay,
        hire_of(request.context.resource_scope) is Some,
{
}

/// The version of a surface depends on its floor alone: two builds of one
/// request over one floor have the same version payload, whatever discovery
/// gave each of them.
pub proof fn law_version_is_stable_across_discovery(
    catalog: CapabilityCatalogView,
    request: VisibleCapabilityRequestView,
    canonical: Seq<Result<Seq<char>, Seq<char>>>,
    floor: Seq<AnsweredDescriptorView>,
    left: Seq<AnsweredDescriptorView>,
    right: Seq<AnsweredDescriptorView>,
)
    requires
        floor_run(catalog, request, floor, Seq::empty()) is Ok,
    ensures
        ({
            let shown = floor_run(catalog, request, floor, Seq::empty())->Ok_0;
            let a = surface_of(catalog, request, floor, left)->Ok_0;
            let b = surface_of(catalog, request, floor, right)->Ok_0;
            versioned(catalog, request, canonical, a, ids_of(a.skip(shown.len() as int)))
                == versioned(
                catalog,
                request,
                canonical,
                b,
                ids_of(b.skip(shown.len() as int)),
            )
        }),
{
    let grants = grants_in_order(canonical);
    if grants is Ok {
        lemma_version_of_surface(catalog, request, grants->Ok_0, floor, left);
        lemma_version_of_surface(catalog, request, grants->Ok_0, floor, right);
    }
}

proof fn lemma_version_of_surface(
    catalog: CapabilityCatalogView,
    request: VisibleCapabilityRequestView,
    grants: Seq<Seq<char>>,
    floor: Seq<AnsweredDescriptorView>,
    discovered: Seq<AnsweredDescriptorView>,
)
    requires
        floor_run(catalog, request, floor, Seq::empty()) is Ok,
    ensures
        ({
            let shown = floor_run(catalog, request, floor, Seq::empty())->Ok_0;
            let surface = surface_of(catalog, request, floor, discovered)->Ok_0;
            version_payload(
                catalog,
                request,
                grants,
                surface,
                ids_of(surface.skip(shown.len() as int)),
            ) == version_payload(catalog, request, grants, shown, Seq::empty())
        }),
{
    law_floor_comes_first_and_wins(catalog, request, floor, discovered);
    let shown = floor_run(catalog, request, floor, Seq::empty())->Ok_0;
    let surface = surface_of(catalog, request, floor, discovered)->Ok_0;
    let overlay = surface.skip(shown.len() as int);
    let ids = ids_of(overlay);
    assert forall|k: int| 0 <= k < shown.len() implies !ids.contains(
        (#[trigger] shown[k]).descriptor.id,
    ) by {
        if ids.contains(shown[k].descriptor.id) {
            let m = choose|m: int| 0 <= m < ids.len() && ids[m] == shown[k].descriptor.id;
            assert(surface[shown.len() + m] == overlay[m]);
            assert(shows(shown, surface[shown.len() + m].descriptor.id));
        }
    }
    assert forall|k: int| 0 <= k < overlay.len() implies ids.contains(
        (#[trigger] overlay[k]).descriptor.id,
    ) by {
        assert(ids[k] == overlay[k].descriptor.id);
    }
    law_version_ignores_discovered_capabilities(catalog, request, grants, shown, overlay, ids);
    assert(shown + overlay =~= surface);
}

proof fn lemma_floor_run_pushed(
    catalog: CapabilityCatalogView,
    request: VisibleCapabilityRequestView,
    items: Seq<AnsweredDescriptorView>,
    item: AnsweredDescriptorView,
    shown: Seq<VisibleCapabilityView>,
)
    ensures
        floor_run(catalog, request, items.push(item), shown) == match floor_run(
            catalog,
            request,
            items,
            shown,
        ) {
            Err(error) => Err(error),
            Ok(before) => floor_run(catalog, request, seq![item], before),
        },
    decreases items.len(),
{
    let longer = items.push(item);
    if items.len() == 0 {
        assert(longer =~= seq![item]);
    } else if shown.len() < request.policy.limit() {
        assert(longer[0] == items[0]);
        assert(longer.drop_first() =~= items.drop_first().push(item));
        lemma_floor_run_pushed(catalog, request, items.drop_first(), item, shown);
        if let Ok(Some(capability)) = evaluation(
            catalog,
            request,
            items[0].descriptor,
            DescriptorSource::Floor,
            schema_reference(items[0].descriptor),
            items[0].answers,
        ) {
            lemma_floor_run_pushed(
                catalog,
                request,
                items.drop_first(),
                item,
                shown.push(capability),
            );
        }
    }
}

proof fn lemma_overlay_run_pushed(
    catalog: CapabilityCatalogView,
    request: VisibleCapabilityRequestView,
    items: Seq<AnsweredDescriptorView>,
    item: AnsweredDescriptorView,
    floor: Seq<VisibleCapabilityView>,
    shown: Seq<VisibleCapabilityView>,
)
    ensures
        overlay_run(catalog, request, items.push(item), floor, shown) == overlay_run(
            catalog,
            request,
            seq![item],
            floor,
            overlay_run(catalog, request, items, floor, shown),
        ),
    decreases items.len(),
{
    let longer = items.push(item);
    if items.len() == 0 {
        assert(longer =~= seq![item]);
    } else if shown.len() < request.policy.limit() {
        assert(longer[0] == items[0]);
        assert(longer.drop_first() =~= items.drop_first().push(item));
        lemma_overlay_run_pushed(catalog, request, items.drop_first(), item, floor, shown);
        if let Ok(Some(capability)) = evaluation(
            catalog,
            request,
            items[0].descriptor,
            DescriptorSource::Overlay,
            schema_reference(items[0].descriptor),
            items[0].answers,
        ) {
            lemma_overlay_run_pushed(
                catalog,
                request,
                items.drop_first(),
                item,
                floor,
                shown.push(capability),
            );
        }
    }
}

/// The most capabilities that a request may be shown.
pub open spec fn room(request: VisibleCapabilityRequestView) -> nat {
    match request.policy.max_capabilities {
        Some(max) => max as nat,
        None => usize::MAX as nat,
    }
}

/// Without descriptors the surface is empty. One more descriptor of the host's own
/// adds what its evaluation shows, at the end and within the limit, and changes
/// nothing else; if its evaluation fails while there is room, the surface fails alike.
pub proof fn law_each_own_descriptor_adds_what_it_shows(
    catalog: CapabilityCatalogView,
    request: VisibleCapabilityRequestView,
    floor: Seq<AnsweredDescriptorView>,
    item: AnsweredDescriptorView,
)
    ensures
        surface_of(catalog, request, Seq::empty(), Seq::empty()) == Ok::<
            Seq<VisibleCapabilityView>,
            HostRuntimeErrorView,
        >(Seq::empty()),
        ({
            let before = surface_of(catalog, request, floor, Seq::empty());
            let after = surface_of(catalog, request, floor.push(item), Seq::empty());
            let added = evaluation(
                catalog,
                request,
                item.descriptor,
                DescriptorSource::Floor,
                root_string_member(item.descriptor.parameters_schema, "$ref"@),
                item.answers,
            );
            match before {
                Err(error) => after == before,
                Ok(shown) => if shown.len() >= room(request) {
                    after == before
                } else {
                    match added {
                        Err(error) => after matches Err(failed) && failed == error,
                        Ok(None) => after == before,
                        Ok(Some(capability)) => after matches Ok(surface) && surface
                            == shown.push(capability),
                    }
                },
            }
        }),
{
    lemma_floor_run_pushed(catalog, request, floor, item, Seq::empty());
    reveal_with_fuel(floor_run, 3);
}

/// One more discovered descriptor adds what its evaluation shows, at the end and
/// within the limit, and changes nothing else. It adds nothing without an overlay,
/// without an agent in the scope, or where the host's own part of the surface shows
/// its id; and it never fails the surface.
pub proof fn law_each_discovered_descriptor_adds_what_it_shows(
    catalog: CapabilityCatalogView,
    request: VisibleCapabilityRequestView,
    floor: Seq<AnsweredDescriptorView>,
    discovered: Seq<AnsweredDescriptorView>,
    item: AnsweredDescriptorView,
)
    ensures
        ({
            let own = surface_of(catalog, request, floor, Seq::empty());
            let before = surface_of(catalog, request, floor, discovered);
            let after = surface_of(catalog, request, floor, discovered.push(item));
            let added = evaluation(
                catalog,
                request,
                item.descriptor,
                DescriptorSource::Overlay,
                root_string_member(item.descriptor.parameters_schema, "$ref"@),
                item.answers,
            );
            match before {
                Err(error) => after == before && own == before,
                Ok(shown) => own is Ok && {
                    let passed_over = exists|k: int|
                        0 <= k < own->Ok_0.len() && (#[trigger] own->Ok_0[k]).descriptor.id
                            == item.descriptor.id;
                    if catalog.has_overlay && request.context.resource_scope.agent_id is Some
                        && shown.len() < room(request) && !passed_over && added is Ok && added->Ok_0 is Some {
                        after matches Ok(surface) && surface == shown.push(added->Ok_0->0)
                    } else {
                        after == before
                    }
                },
            }
        }),
{
    if let Ok(shown) = floor_run(catalog, request, floor, Seq::empty()) {
        lemma_floor_run(catalog, request, floor, Seq::empty());
        lemma_overlay_run(catalog, request, discovered, shown, shown);
        lemma_overlay_run_pushed(catalog, request, discovered, item, shown, shown);
        reveal_with_fuel(overlay_run, 3);
    }
}

/// Each descriptor is evaluated with the answers at its own place.
pub proof fn law_answers_stay_with_their_descriptors(
    descriptors: Seq<CapabilityDescriptorView>,
    answers: Seq<DescriptorAnswersView>,
    at: int,
)
    requires
        0 <= at < descriptors.len(),
        answers.len() == descriptors.len(),
    ensures
        answered(descriptors, answers).len() == descriptors.len(),
        answered(descriptors, answers)[at].descriptor == descriptors[at],
        answered(descriptors, answers)[at].answers == answers[at],
{
}

} // verus!
