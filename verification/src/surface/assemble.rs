//! The build of a whole surface: the host's own capabilities first, then the
//! discovered ones.

use vstd::prelude::*;

use crate::capability::{CapabilityDescriptor, CapabilityDescriptorView};
use crate::ids::CapabilityId;
use crate::outcome::outcome;
use crate::scope::{hire_of, HireScope};
use crate::surface::evaluate::{
    evaluation, invalid, schema_reference, CapabilityCatalog, CapabilityCatalogView,
    DescriptorAnswers, DescriptorAnswersView,
};
use crate::surface::version::{
    grants_in_order, law_version_ignores_discovered_capabilities, outcomes, surface_version,
    version_payload, versioned, SurfaceVersionPayload,
};
use crate::surface::{
    DescriptorSource, HostRuntimeError, HostRuntimeErrorView, VisibleCapability,
    VisibleCapabilityRequest, VisibleCapabilityRequestView, VisibleCapabilityView,
};
use crate::text::joined;

verus! {

/// Where a build stands.
#[derive(Debug, Clone, Copy, PartialEq, Eq, Structural)]
pub enum SurfacePhase {
    /// The host's own capabilities are being evaluated.
    Floor,
    /// Discovered capabilities are waited for.
    AwaitOverlay,
    /// Discovered capabilities are being evaluated.
    Overlay,
    /// Nothing is left to do.
    Finished,
}

/// A descriptor with the host's answers about it.
#[derive(Debug, PartialEq, Eq)]
pub struct AnsweredDescriptor {
    pub descriptor: CapabilityDescriptor,
    pub answers: DescriptorAnswers,
}

/// The mathematical value of a [`AnsweredDescriptor`].
#[verifier::ext_equal]
pub struct AnsweredDescriptorView {
    pub descriptor: CapabilityDescriptorView,
    pub answers: DescriptorAnswersView,
}

impl View for AnsweredDescriptor {
    type V = AnsweredDescriptorView;

    open spec fn view(&self) -> AnsweredDescriptorView {
        AnsweredDescriptorView {
            descriptor: self.descriptor@,
            answers: self.answers@,
        }
    }
}

impl DeepView for AnsweredDescriptor {
    type V = AnsweredDescriptorView;

    open spec fn deep_view(&self) -> AnsweredDescriptorView {
        self@
    }
}

impl Clone for AnsweredDescriptor {
    fn clone(&self) -> (r: Self)
        ensures
            r@ == self@,
    {
        AnsweredDescriptor {
            descriptor: self.descriptor.clone(),
            answers: self.answers.clone(),
        }
    }
}

/// A surface under construction.
#[derive(Debug, PartialEq, Eq)]
pub struct SurfaceBuild {
    floor: Vec<CapabilityDescriptor>,
    overlay: Vec<CapabilityDescriptor>,
    /// Whether discovery may be asked for at all.
    overlay_allowed: bool,
    max: usize,
    phase: SurfacePhase,
    /// Next descriptor of the current phase.
    position: usize,
    capabilities: Vec<VisibleCapability>,
    /// How many capabilities are the host's own, once those are done.
    floor_len: usize,
}

/// The mathematical value of a [`SurfaceBuild`].
#[verifier::ext_equal]
pub struct SurfaceBuildView {
    pub floor: Seq<CapabilityDescriptorView>,
    pub overlay: Seq<CapabilityDescriptorView>,
    pub overlay_allowed: bool,
    pub max: usize,
    pub phase: SurfacePhase,
    pub position: usize,
    pub capabilities: Seq<VisibleCapabilityView>,
    pub floor_len: usize,
}

impl View for SurfaceBuild {
    type V = SurfaceBuildView;

    closed spec fn view(&self) -> SurfaceBuildView {
        SurfaceBuildView {
            floor: self.floor.deep_view(),
            overlay: self.overlay.deep_view(),
            overlay_allowed: self.overlay_allowed,
            max: self.max,
            phase: self.phase,
            position: self.position,
            capabilities: self.capabilities.deep_view(),
            floor_len: self.floor_len,
        }
    }
}

impl DeepView for SurfaceBuild {
    type V = SurfaceBuildView;

    open spec fn deep_view(&self) -> SurfaceBuildView {
        self@
    }
}

impl Clone for SurfaceBuild {
    fn clone(&self) -> (r: Self)
        ensures
            r@ == self@,
    {
        let r = SurfaceBuild {
            floor: self.floor.clone(),
            overlay: self.overlay.clone(),
            overlay_allowed: self.overlay_allowed,
            max: self.max,
            phase: self.phase,
            position: self.position,
            capabilities: self.capabilities.clone(),
            floor_len: self.floor_len,
        };
        assert(r.floor.deep_view() =~= self.floor.deep_view());
        assert(r.overlay.deep_view() =~= self.overlay.deep_view());
        assert(r.capabilities.deep_view() =~= self.capabilities.deep_view());
        r
    }
}

/// What a build asks for next.
#[derive(Debug, PartialEq, Eq)]
pub enum SurfaceStep {
    /// Answers about this descriptor.
    Evaluate { descriptor: CapabilityDescriptor, source: DescriptorSource },
    /// The descriptors discovered for the hire that
    /// [`CapabilityCatalog::hire_to_discover`] gives.
    Discover,
    /// Nothing: the surface is complete.
    Finish,
}

/// The mathematical value of a [`SurfaceStep`].
#[verifier::ext_equal]
pub enum SurfaceStepView {
    Evaluate { descriptor: CapabilityDescriptorView, source: DescriptorSource },
    Discover,
    Finish,
}

impl View for SurfaceStep {
    type V = SurfaceStepView;

    open spec fn view(&self) -> SurfaceStepView {
        match self {
            SurfaceStep::Evaluate { descriptor, source } => SurfaceStepView::Evaluate {
                descriptor: descriptor@,
                source: *source,
            },
            SurfaceStep::Discover => SurfaceStepView::Discover,
            SurfaceStep::Finish => SurfaceStepView::Finish,
        }
    }
}

impl DeepView for SurfaceStep {
    type V = SurfaceStepView;

    open spec fn deep_view(&self) -> SurfaceStepView {
        self@
    }
}

impl Clone for SurfaceStep {
    fn clone(&self) -> (r: Self)
        ensures
            r@ == self@,
    {
        match self {
            SurfaceStep::Evaluate { descriptor, source } => SurfaceStep::Evaluate {
                descriptor: descriptor.clone(),
                source: *source,
            },
            SurfaceStep::Discover => SurfaceStep::Discover,
            SurfaceStep::Finish => SurfaceStep::Finish,
        }
    }
}

/// Whether a capability with this id is shown.
pub open spec fn shows(capabilities: Seq<VisibleCapabilityView>, id: Seq<char>) -> bool {
    exists|k: int|
        0 <= k < capabilities.len() && (#[trigger] capabilities[k]).descriptor.id == id
}

/// Whether a request may discover hosted MCP tools: an overlay is attached and
/// the caller is an agent.
pub open spec fn may_discover(
    catalog: CapabilityCatalogView,
    request: VisibleCapabilityRequestView,
) -> bool {
    catalog.has_overlay && hire_of(request.context.resource_scope) is Some
}

/// The host's own capabilities that are shown, added to `shown` in order until
/// the limit is reached. The first failed evaluation fails the surface.
pub open spec fn floor_run(
    catalog: CapabilityCatalogView,
    request: VisibleCapabilityRequestView,
    items: Seq<AnsweredDescriptorView>,
    shown: Seq<VisibleCapabilityView>,
) -> Result<Seq<VisibleCapabilityView>, HostRuntimeErrorView>
    decreases items.len(),
{
    if items.len() == 0 || shown.len() >= request.policy.limit() {
        Ok(shown)
    } else {
        match evaluation(
            catalog,
            request,
            items[0].descriptor,
            DescriptorSource::Floor,
            schema_reference(items[0].descriptor),
            items[0].answers,
        ) {
            Err(error) => Err(error),
            Ok(None) => floor_run(catalog, request, items.drop_first(), shown),
            Ok(Some(capability)) => floor_run(
                catalog,
                request,
                items.drop_first(),
                shown.push(capability),
            ),
        }
    }
}

/// The discovered capabilities that are shown, added to `shown` in order until
/// the limit is reached. One whose id the floor shows is passed over.
pub open spec fn overlay_run(
    catalog: CapabilityCatalogView,
    request: VisibleCapabilityRequestView,
    items: Seq<AnsweredDescriptorView>,
    floor: Seq<VisibleCapabilityView>,
    shown: Seq<VisibleCapabilityView>,
) -> Seq<VisibleCapabilityView>
    decreases items.len(),
{
    if items.len() == 0 || shown.len() >= request.policy.limit() {
        shown
    } else if shows(floor, items[0].descriptor.id) {
        overlay_run(catalog, request, items.drop_first(), floor, shown)
    } else {
        match evaluation(
            catalog,
            request,
            items[0].descriptor,
            DescriptorSource::Overlay,
            schema_reference(items[0].descriptor),
            items[0].answers,
        ) {
            Ok(Some(capability)) => overlay_run(
                catalog,
                request,
                items.drop_first(),
                floor,
                shown.push(capability),
            ),
            _ => overlay_run(catalog, request, items.drop_first(), floor, shown),
        }
    }
}

/// The surface once its floor is known.
pub open spec fn surface_over(
    catalog: CapabilityCatalogView,
    request: VisibleCapabilityRequestView,
    floor: Seq<VisibleCapabilityView>,
    discovered: Seq<AnsweredDescriptorView>,
) -> Seq<VisibleCapabilityView> {
    if may_discover(catalog, request) && floor.len() < request.policy.limit() {
        overlay_run(catalog, request, discovered, floor, floor)
    } else {
        floor
    }
}

/// The whole surface: the floor, then what was discovered.
pub open spec fn surface_of(
    catalog: CapabilityCatalogView,
    request: VisibleCapabilityRequestView,
    floor: Seq<AnsweredDescriptorView>,
    discovered: Seq<AnsweredDescriptorView>,
) -> Result<Seq<VisibleCapabilityView>, HostRuntimeErrorView> {
    match floor_run(catalog, request, floor, Seq::empty()) {
        Err(error) => Err(error),
        Ok(shown) => Ok(surface_over(catalog, request, shown, discovered)),
    }
}

/// The descriptors of some answered ones.
pub open spec fn descriptors_of(items: Seq<AnsweredDescriptorView>) -> Seq<
    CapabilityDescriptorView,
> {
    items.map_values(|item: AnsweredDescriptorView| item.descriptor)
}

/// The first position from `from` whose descriptor the floor does not show.
pub open spec fn next_unseen(
    overlay: Seq<CapabilityDescriptorView>,
    floor: Seq<VisibleCapabilityView>,
    from: nat,
) -> nat
    decreases overlay.len() - from,
{
    if from < overlay.len() && shows(floor, overlay[from as int].id) {
        next_unseen(overlay, floor, from + 1)
    } else {
        from
    }
}

impl SurfaceBuildView {
    /// The capabilities of the floor.
    pub open spec fn floor_part(self) -> Seq<VisibleCapabilityView> {
        self.capabilities.take(self.floor_len as int)
    }

    /// Whether the state hangs together: the limit holds, and once the floor is
    /// done no later capability has the id of one on it.
    pub open spec fn well_formed(self) -> bool {
        &&& self.capabilities.len() <= self.max
        &&& self.floor.len() <= usize::MAX
        &&& self.overlay.len() <= usize::MAX
        &&& self.floor_len <= self.capabilities.len()
        &&& self.phase != SurfacePhase::Floor ==> forall|k: int|
            self.floor_len <= k < self.capabilities.len() ==> !shows(
                self.floor_part(),
                (#[trigger] self.capabilities[k]).descriptor.id,
            )
        &&& self.phase == SurfacePhase::Floor ==> self.position <= self.floor.len()
        &&& self.phase == SurfacePhase::AwaitOverlay ==> self.overlay_allowed && self.floor_len
            == self.capabilities.len() && self.capabilities.len() < self.max
        &&& self.phase == SurfacePhase::Overlay ==> self.overlay_allowed && self.position
            <= self.overlay.len()
        &&& !self.overlay_allowed && self.phase == SurfacePhase::Finished ==> self.floor_len
            == self.capabilities.len()
    }

    /// The descriptor that waits for its answers, with its source.
    pub open spec fn pending(self) -> Option<(CapabilityDescriptorView, DescriptorSource)> {
        match self.phase {
            SurfacePhase::Floor => if self.position < self.floor.len() && self.capabilities.len()
                < self.max {
                Some((self.floor[self.position as int], DescriptorSource::Floor))
            } else {
                None
            },
            SurfacePhase::Overlay => if self.position < self.overlay.len()
                && self.capabilities.len() < self.max && !shows(
                self.floor_part(),
                self.overlay[self.position as int].id,
            ) {
                Some((self.overlay[self.position as int], DescriptorSource::Overlay))
            } else {
                None
            },
            _ => None,
        }
    }

    /// The state when the next step is asked for.
    pub open spec fn advanced(self) -> SurfaceBuildView {
        match self.phase {
            SurfacePhase::Floor => if self.pending() is Some {
                self
            } else if self.overlay_allowed && self.capabilities.len() < self.max {
                SurfaceBuildView {
                    phase: SurfacePhase::AwaitOverlay,
                    floor_len: self.capabilities.len() as usize,
                    ..self
                }
            } else {
                SurfaceBuildView {
                    phase: SurfacePhase::Finished,
                    floor_len: self.capabilities.len() as usize,
                    ..self
                }
            },
            SurfacePhase::Overlay => {
                let at = next_unseen(self.overlay, self.floor_part(), self.position as nat);
                if self.capabilities.len() < self.max && at < self.overlay.len() {
                    SurfaceBuildView { position: at as usize, ..self }
                } else {
                    SurfaceBuildView { phase: SurfacePhase::Finished, ..self }
                }
            },
            _ => self,
        }
    }

    /// What the state asks for once it has advanced.
    pub open spec fn asks(self) -> SurfaceStepView {
        match self.phase {
            SurfacePhase::AwaitOverlay => SurfaceStepView::Discover,
            SurfacePhase::Finished => SurfaceStepView::Finish,
            _ => match self.pending() {
                Some((descriptor, source)) => SurfaceStepView::Evaluate { descriptor, source },
                None => SurfaceStepView::Finish,
            },
        }
    }

    /// The state after the pending descriptor was evaluated.
    pub open spec fn with_evaluation(self, shown: Option<VisibleCapabilityView>) -> SurfaceBuildView {
        SurfaceBuildView {
            capabilities: match shown {
                Some(capability) => self.capabilities.push(capability),
                None => self.capabilities,
            },
            position: (self.position + 1) as usize,
            ..self
        }
    }

    /// The state after discovery answered.
    pub open spec fn with_discovery(self, overlay: Seq<CapabilityDescriptorView>) -> SurfaceBuildView {
        if self.phase == SurfacePhase::AwaitOverlay {
            SurfaceBuildView { phase: SurfacePhase::Overlay, overlay, position: 0, ..self }
        } else {
            self
        }
    }

    /// Whether this is a build for a request, over these answered descriptors.
    pub open spec fn serves(
        self,
        catalog: CapabilityCatalogView,
        request: VisibleCapabilityRequestView,
        floor: Seq<AnsweredDescriptorView>,
        discovered: Seq<AnsweredDescriptorView>,
    ) -> bool {
        &&& self.well_formed()
        &&& self.max == request.policy.limit()
        &&& self.overlay_allowed == may_discover(catalog, request)
        &&& self.floor == descriptors_of(floor)
        &&& self.phase == SurfacePhase::Overlay ==> self.overlay == descriptors_of(discovered)
    }

    /// The surface that the rest of the build comes to.
    pub open spec fn comes_to(
        self,
        catalog: CapabilityCatalogView,
        request: VisibleCapabilityRequestView,
        floor: Seq<AnsweredDescriptorView>,
        discovered: Seq<AnsweredDescriptorView>,
    ) -> Result<Seq<VisibleCapabilityView>, HostRuntimeErrorView> {
        match self.phase {
            SurfacePhase::Floor => match floor_run(
                catalog,
                request,
                floor.skip(self.position as int),
                self.capabilities,
            ) {
                Err(error) => Err(error),
                Ok(shown) => Ok(surface_over(catalog, request, shown, discovered)),
            },
            SurfacePhase::AwaitOverlay => Ok(
                overlay_run(catalog, request, discovered, self.capabilities, self.capabilities),
            ),
            SurfacePhase::Overlay => Ok(
                overlay_run(
                    catalog,
                    request,
                    discovered.skip(self.position as int),
                    self.floor_part(),
                    self.capabilities,
                ),
            ),
            SurfacePhase::Finished => Ok(self.capabilities),
        }
    }
}

/// Whether a capability with this id is among the first `upto`.
fn shown_among(capabilities: &Vec<VisibleCapability>, upto: usize, id: &CapabilityId) -> (r: bool)
    requires
        upto <= capabilities@.len(),
    ensures
        r == shows(capabilities.deep_view().take(upto as int), id@),
{
    let ghost views = capabilities.deep_view().take(upto as int);
    let mut i: usize = 0;
    while i < upto
        invariant
            i <= upto <= capabilities@.len(),
            views == capabilities.deep_view().take(upto as int),
            forall|k: int| 0 <= k < i ==> (#[trigger] views[k]).descriptor.id != id@,
        decreases upto - i,
    {
        assert(views[i as int] == capabilities@[i as int]@);
        if capabilities[i].descriptor.id == *id {
            return true;
        }
        i = i + 1;
    }
    false
}

impl CapabilityCatalog {
    /// The hire whose tools a request discovers, where it may discover any: the
    /// one that the request's own scope names.
    pub fn hire_to_discover(&self, request: &VisibleCapabilityRequest) -> (r: Option<HireScope>)
        ensures
            r.deep_view() == (if self@.has_overlay {
                hire_of(request@.context.resource_scope)
            } else {
                None
            }),
            r is Some <==> may_discover(self@, request@),
    {
        if self.has_overlay {
            HireScope::from_scope(&request.context.resource_scope)
        } else {
            None
        }
    }
}

impl SurfaceBuild {
    /// Starts a build. `context_check` is the host's verdict on the execution
    /// context; an invalid one fails the request.
    pub fn start(
        catalog: &CapabilityCatalog,
        request: &VisibleCapabilityRequest,
        context_check: Result<(), String>,
    ) -> (r: Result<SurfaceBuild, HostRuntimeError>)
        ensures
            match context_check {
                Err(reason) => r matches Err(error) && error@ == invalid(
                    "invalid execution context: "@ + reason@,
                ),
                Ok(()) => r matches Ok(build) && build@ == (SurfaceBuildView {
                    floor: catalog@.registry.capabilities,
                    overlay: Seq::empty(),
                    overlay_allowed: may_discover(catalog@, request@),
                    max: request@.policy.limit() as usize,
                    phase: SurfacePhase::Floor,
                    position: 0,
                    capabilities: Seq::empty(),
                    floor_len: 0,
                }) && build@.well_formed(),
            },
    {
        match context_check {
            Err(reason) => {
                return Err(
                    HostRuntimeError::invalid_request(
                        joined("invalid execution context: ", reason.as_str()),
                    ),
                );
            },
            Ok(()) => {},
        }
        let hired = HireScope::from_scope(&request.context.resource_scope).is_some();
        let overlay: Vec<CapabilityDescriptor> = Vec::new();
        let capabilities: Vec<VisibleCapability> = Vec::new();
        let build = SurfaceBuild {
            floor: catalog.registry.capabilities.clone(),
            overlay,
            overlay_allowed: catalog.has_overlay && hired,
            max: request.policy.limit(),
            phase: SurfacePhase::Floor,
            position: 0,
            capabilities,
            floor_len: 0,
        };
        assert(build@.floor =~= catalog@.registry.capabilities);
        assert(build@.overlay =~= Seq::empty());
        assert(build@.capabilities =~= Seq::empty());
        Ok(build)
    }

    /// The position of the pending descriptor in its list.
    pub fn position(&self) -> (r: usize)
        ensures
            r == self@.position,
    {
        self.position
    }

    /// The capabilities shown so far.
    pub fn capabilities(&self) -> (r: &Vec<VisibleCapability>)
        ensures
            r.deep_view() == self@.capabilities,
    {
        &self.capabilities
    }

    /// The next step of the build.
    pub fn next_step(&mut self) -> (r: SurfaceStep)
        requires
            old(self)@.well_formed(),
        ensures
            final(self)@ == old(self)@.advanced(),
            final(self)@.well_formed(),
            r@ == final(self)@.asks(),
            r@ is Evaluate <==> final(self)@.pending() is Some,
            r@ is Discover <==> final(self)@.phase == SurfacePhase::AwaitOverlay,
            r@ is Finish <==> final(self)@.phase == SurfacePhase::Finished,
    {
        match self.phase {
            SurfacePhase::Floor => {
                if self.position < self.floor.len() && self.capabilities.len() < self.max {
                    assert(self@.floor[self.position as int] == self.floor@[self.position as int]@);
                    return SurfaceStep::Evaluate {
                        descriptor: self.floor[self.position].clone(),
                        source: DescriptorSource::Floor,
                    };
                }
                self.floor_len = self.capabilities.len();
                if self.overlay_allowed && self.capabilities.len() < self.max {
                    self.phase = SurfacePhase::AwaitOverlay;
                    SurfaceStep::Discover
                } else {
                    self.phase = SurfacePhase::Finished;
                    SurfaceStep::Finish
                }
            },
            SurfacePhase::AwaitOverlay => SurfaceStep::Discover,
            SurfacePhase::Overlay => {
                let mut at: usize = self.position;
                while at < self.overlay.len() && shown_among(
                    &self.capabilities,
                    self.floor_len,
                    &self.overlay[at].id,
                )
                    invariant
                        self.floor_len <= self.capabilities@.len(),
                        self.position <= at <= self.overlay@.len(),
                        next_unseen(self@.overlay, self@.floor_part(), self.position as nat)
                            == next_unseen(self@.overlay, self@.floor_part(), at as nat),
                    ensures
                        self.position <= at <= self.overlay@.len(),
                        next_unseen(self@.overlay, self@.floor_part(), self.position as nat) == at,
                        at < self.overlay@.len() ==> !shows(
                            self@.floor_part(),
                            self@.overlay[at as int].id,
                        ),
                    decreases self.overlay@.len() - at,
                {
                    assert(self@.overlay[at as int] == self.overlay@[at as int]@);
                    at = at + 1;
                }
                if self.capabilities.len() < self.max && at < self.overlay.len() {
                    self.position = at;
                    assert(self@.overlay[at as int] == self.overlay@[at as int]@);
                    SurfaceStep::Evaluate {
                        descriptor: self.overlay[at].clone(),
                        source: DescriptorSource::Overlay,
                    }
                } else {
                    self.phase = SurfacePhase::Finished;
                    SurfaceStep::Finish
                }
            },
            SurfacePhase::Finished => SurfaceStep::Finish,
        }
    }

    /// Evaluates the pending descriptor with the host's answers about it. A
    /// failed evaluation leaves the build as it was.
    pub fn evaluated(
        &mut self,
        catalog: &CapabilityCatalog,
        request: &VisibleCapabilityRequest,
        answers: &DescriptorAnswers,
    ) -> (r: Result<(), HostRuntimeError>)
        requires
            old(self)@.well_formed(),
        ensures
            final(self)@.well_formed(),
            match old(self)@.pending() {
                None => r is Ok && final(self)@ == old(self)@,
                Some((descriptor, source)) => match evaluation(
                    catalog@,
                    request@,
                    descriptor,
                    source,
                    schema_reference(descriptor),
                    answers@,
                ) {
                    Err(error) => r matches Err(found) && found@ == error && final(self)@
                        == old(self)@,
                    Ok(shown) => r is Ok && final(self)@ == old(self)@.with_evaluation(shown),
                },
            },
    {
        let source = match self.phase {
            SurfacePhase::Floor => {
                if self.position >= self.floor.len() || self.capabilities.len() >= self.max {
                    return Ok(());
                }
                DescriptorSource::Floor
            },
            SurfacePhase::Overlay => {
                if self.position >= self.overlay.len() || self.capabilities.len() >= self.max {
                    return Ok(());
                }
                assert(self@.overlay[self.position as int]
                    == self.overlay@[self.position as int]@);
                if shown_among(
                    &self.capabilities,
                    self.floor_len,
                    &self.overlay[self.position].id,
                ) {
                    return Ok(());
                }
                DescriptorSource::Overlay
            },
            _ => return Ok(()),
        };
        let descriptor = match source {
            DescriptorSource::Floor => self.floor[self.position].clone(),
            DescriptorSource::Overlay => self.overlay[self.position].clone(),
        };
        assert(Some((descriptor@, source)) == old(self)@.pending());
        match catalog.evaluate_descriptor(&descriptor, source, request, answers) {
            Err(error) => Err(error),
            Ok(None) => {
                self.position = self.position + 1;
                Ok(())
            },
            Ok(Some(capability)) => {
                let ghost added = capability@;
                assert(added.descriptor.id == descriptor@.id);
                self.capabilities.push(capability);
                self.position = self.position + 1;
                proof {
                    let before = old(self)@;
                    assert(self@.capabilities =~= before.capabilities.push(added));
                    assert(self@ == before.with_evaluation(Some(added)));
                    assert(self@.floor_part() =~= before.floor_part());
                    assert forall|k: int|
                        self@.phase != SurfacePhase::Floor && self@.floor_len <= k
                            < self@.capabilities.len() implies !shows(
                        self@.floor_part(),
                        (#[trigger] self@.capabilities[k]).descriptor.id,
                    ) by {
                        if k < before.capabilities.len() {
                            assert(self@.capabilities[k] == before.capabilities[k]);
                        }
                    }
                }
                Ok(())
            },
        }
    }

    /// Takes the discovered descriptors. Outside the phase that waits for them
    /// they are ignored.
    pub fn discovered(&mut self, descriptors: Vec<CapabilityDescriptor>)
        requires
            old(self)@.well_formed(),
        ensures
            final(self)@ == old(self)@.with_discovery(descriptors.deep_view()),
            final(self)@.well_formed(),
    {
        let count: usize = descriptors.len();
        assert(descriptors.deep_view().len() == count);
        match self.phase {
            SurfacePhase::AwaitOverlay => {
                self.overlay = descriptors;
                self.position = 0;
                self.phase = SurfacePhase::Overlay;
            },
            _ => {},
        }
    }

    /// The ids of the discovered capabilities that are shown.
    pub fn overlay_ids(&self) -> (r: Vec<CapabilityId>)
        requires
            self@.well_formed(),
        ensures
            r.deep_view() == ids_of(self@.capabilities.skip(self@.floor_len as int)),
    {
        let mut out: Vec<CapabilityId> = Vec::new();
        let ghost rest = self@.capabilities.skip(self@.floor_len as int);
        let mut i: usize = self.floor_len;
        assert(out.deep_view() =~= ids_of(rest.take(0)));
        while i < self.capabilities.len()
            invariant
                self@.well_formed(),
                rest == self@.capabilities.skip(self@.floor_len as int),
                self.floor_len <= i <= self.capabilities@.len(),
                out.deep_view() == ids_of(rest.take(i - self.floor_len)),
            decreases self.capabilities@.len() - i,
        {
            let ghost before = out.deep_view();
            let id = self.capabilities[i].descriptor.id.clone();
            let ghost added = id@;
            out.push(id);
            assert(out.deep_view() =~= before.push(added));
            assert(before.push(added) =~= ids_of(rest.take(i + 1 - self.floor_len)));
            i = i + 1;
        }
        assert(rest.take(rest.len() as int) =~= rest);
        out
    }

    /// What the version of the surface is computed from. `canonical` is what the
    /// host made of the payload of each grant of the request's context, in their
    /// order.
    pub fn version(
        &self,
        catalog: &CapabilityCatalog,
        request: &VisibleCapabilityRequest,
        canonical: &Vec<Result<String, String>>,
    ) -> (r: Result<SurfaceVersionPayload, HostRuntimeError>)
        requires
            self@.well_formed(),
            canonical@.len() == request@.context.grants.len(),
        ensures
            outcome(r) == versioned(
                catalog@,
                request@,
                outcomes(canonical@),
                self@.capabilities,
                ids_of(self@.capabilities.skip(self@.floor_len as int)),
            ),
            self@.phase != SurfacePhase::Floor ==> outcome(r) == versioned(
                catalog@,
                request@,
                outcomes(canonical@),
                self@.floor_part(),
                Seq::empty(),
            ),
    {
        let ids = self.overlay_ids();
        proof {
            let grants = grants_in_order(outcomes(canonical@));
            if self@.phase != SurfacePhase::Floor && grants is Ok {
                lemma_version_of_parts(
                    catalog@,
                    request@,
                    grants->Ok_0,
                    self@.floor_part(),
                    self@.capabilities,
                );
            }
        }
        surface_version(catalog, request, canonical, &self.capabilities, &ids)
    }
}

/// The ids of some capabilities.
pub open spec fn ids_of(capabilities: Seq<VisibleCapabilityView>) -> Seq<Seq<char>> {
    capabilities.map_values(|capability: VisibleCapabilityView| capability.descriptor.id)
}

proof fn lemma_version_of_parts(
    catalog: CapabilityCatalogView,
    request: VisibleCapabilityRequestView,
    grants: Seq<Seq<char>>,
    floor: Seq<VisibleCapabilityView>,
    all: Seq<VisibleCapabilityView>,
)
    requires
        floor.len() <= all.len(),
        all.take(floor.len() as int) == floor,
        forall|k: int|
            floor.len() <= k < all.len() ==> !shows(
                floor,
                (#[trigger] all[k]).descriptor.id,
            ),
    ensures
        version_payload(
            catalog,
            request,
            grants,
            all,
            ids_of(all.skip(floor.len() as int)),
        ) == version_payload(catalog, request, grants, floor, Seq::empty()),
{
    let overlay = all.skip(floor.len() as int);
    let ids = ids_of(overlay);
    assert forall|k: int| 0 <= k < floor.len() implies !ids.contains(
        (#[trigger] floor[k]).descriptor.id,
    ) by {
        if ids.contains(floor[k].descriptor.id) {
            let m = choose|m: int| 0 <= m < ids.len() && ids[m] == floor[k].descriptor.id;
            assert(all[floor.len() + m] == overlay[m]);
            assert(shows(floor, all[floor.len() + m].descriptor.id));
        }
    }
    assert forall|k: int| 0 <= k < overlay.len() implies ids.contains(
        (#[trigger] overlay[k]).descriptor.id,
    ) by {
        assert(ids[k] == overlay[k].descriptor.id);
    }
    law_version_ignores_discovered_capabilities(catalog, request, grants, floor, overlay, ids);
    assert(floor + overlay =~= all);
}

/// A build asks about the host's own descriptors one after the other, then for the
/// discovered ones if they may be discovered and there is room, then about those that the
/// floor does not show, and is then over. It never asks beyond its limit.
pub proof fn law_build_asks_about_one_descriptor_after_the_other(build: SurfaceBuildView)
    requires
        build.well_formed(),
    ensures
        ({
            let after = build.advanced();
            let step = after.asks();
            let room = build.capabilities.len() < build.max;
            let own_left = build.phase == SurfacePhase::Floor && build.position < build.floor.len()
                && room;
            &&& step matches SurfaceStepView::Evaluate { descriptor, source } ==> {
                &&& room
                &&& source == DescriptorSource::Floor ==> build.phase == SurfacePhase::Floor
                    && after.position == build.position && descriptor
                    == build.floor[build.position as int]
                &&& source == DescriptorSource::Overlay ==> build.phase == SurfacePhase::Overlay
                    && build.position <= after.position < build.overlay.len() && descriptor
                    == build.overlay[after.position as int] && forall|k: int|
                    0 <= k < build.floor_len ==> (
                    #[trigger] build.capabilities[k]).descriptor.id != descriptor.id
            }
            &&& own_left ==> step is Evaluate
            &&& step is Discover <==> build.phase == SurfacePhase::AwaitOverlay || build.phase
                == SurfacePhase::Floor && !own_left && build.overlay_allowed && room
            &&& build.phase == SurfacePhase::Finished ==> step is Finish
            &&& after.capabilities == build.capabilities
            &&& after.floor == build.floor
            &&& after.overlay == build.overlay
            &&& after.max == build.max
            &&& build.phase == SurfacePhase::Floor && !own_left ==> after.floor_len
                == build.capabilities.len()
            &&& build.phase != SurfacePhase::Floor ==> after.floor_len == build.floor_len
        }),
{
    if build.phase == SurfacePhase::Overlay {
        lemma_next_unseen(build.overlay, build.floor_part(), build.position as nat);
        let at = next_unseen(build.overlay, build.floor_part(), build.position as nat);
        if build.capabilities.len() < build.max && at < build.overlay.len() {
            let floor = build.floor_part();
            assert forall|k: int| 0 <= k < build.floor_len implies (
            #[trigger] build.capabilities[k]).descriptor.id != build.overlay[at as int].id by {
                assert(floor[k] == build.capabilities[k]);
            }
        }
    }
}

proof fn lemma_next_unseen(
    overlay: Seq<CapabilityDescriptorView>,
    floor: Seq<VisibleCapabilityView>,
    from: nat,
)
    requires
        from <= overlay.len(),
    ensures
        ({
            let at = next_unseen(overlay, floor, from);
            &&& from <= at <= overlay.len()
            &&& at < overlay.len() ==> !shows(floor, overlay[at as int].id)
        }),
    decreases overlay.len() - from,
{
    if from < overlay.len() && shows(floor, overlay[from as int].id) {
        lemma_next_unseen(overlay, floor, from + 1);
    }
}

/// An evaluation adds what it shows at the end and passes on to the next descriptor;
/// a discovery is taken as it is, from its first descriptor on, and only where it is
/// waited for. Neither changes anything else.
pub proof fn law_answers_move_the_build_on(
    build: SurfaceBuildView,
    shown: Option<VisibleCapabilityView>,
    overlay: Seq<CapabilityDescriptorView>,
)
    requires
        build.position < usize::MAX,
    ensures
        ({
            let after = build.with_evaluation(shown);
            &&& after.position == build.position + 1
            &&& shown is None ==> after.capabilities == build.capabilities
            &&& shown matches Some(capability) ==> after.capabilities == build.capabilities.push(
                capability,
            )
            &&& after.phase == build.phase && after.floor == build.floor && after.overlay
                == build.overlay && after.max == build.max && after.floor_len == build.floor_len
                && after.overlay_allowed == build.overlay_allowed
        }),
        ({
            let after = build.with_discovery(overlay);
            let waits = build.phase == SurfacePhase::AwaitOverlay;
            &&& !waits ==> after == build
            &&& waits ==> after.phase == SurfacePhase::Overlay && after.overlay == overlay
                && after.position == 0
            &&& after.capabilities == build.capabilities && after.floor == build.floor && after.max
                == build.max && after.floor_len == build.floor_len && after.overlay_allowed
                == build.overlay_allowed
        }),
{
}

} // verus!
