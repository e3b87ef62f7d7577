//! Evaluation of one descriptor for a surface.
//!
//! The host answers what only it can: whether a capability can be planned,
//! whether its dispatch is authorized, and what a schema reference holds. Every
//! decision between those answers is made here.

use vstd::prelude::*;

use crate::capability::{
    no_estimate, CapabilityDescriptor, CapabilityDescriptorView, CapabilityVisibility, EffectKind,
    ResourceEstimate, ResourceEstimateView,
};
use crate::context::{
    law_trust_is_found_by_its_provider, provider_trust, trust_in, ExecutionContext,
    ExecutionContextView, TrustDecision,
};
use crate::ids::ExtensionId;
use crate::json::{json_string_member, root_string_member};
use crate::outcome::outcome;
use crate::package::{ExtensionPackage, ExtensionPackageView};
use crate::registry::{ExtensionRegistry, ExtensionRegistryView};
use crate::surface::policy::{
    law_policy_admits_what_it_lists, CapabilitySurfacePolicy, CapabilitySurfacePolicyView,
};
use crate::surface::{
    DescriptorSource, HostRuntimeError, HostRuntimeErrorView, VisibleCapability,
    VisibleCapabilityAccess, VisibleCapabilityRequest, VisibleCapabilityRequestView,
    VisibleCapabilityView,
};
use crate::text::{joined, joined3};

verus! {

/// What a surface is built from.
#[derive(Debug, PartialEq, Eq)]
pub struct CapabilityCatalog {
    pub registry: ExtensionRegistry,
    /// Provider of the built-in first-party tools.
    pub builtin_provider: ExtensionId,
    pub base_version: String,
    /// Effective runtime policy, as JSON text.
    pub runtime_policy: String,
    /// Whether package schemas can be read.
    pub has_filesystem: bool,
    /// Whether hosted MCP tools can be discovered.
    pub has_overlay: bool,
}

/// The mathematical value of a [`CapabilityCatalog`].
#[verifier::ext_equal]
pub struct CapabilityCatalogView {
    pub registry: ExtensionRegistryView,
    pub builtin_provider: Seq<char>,
    pub base_version: Seq<char>,
    pub runtime_policy: Seq<char>,
    pub has_filesystem: bool,
    pub has_overlay: bool,
}

impl View for CapabilityCatalog {
    type V = CapabilityCatalogView;

    open spec fn view(&self) -> CapabilityCatalogView {
        CapabilityCatalogView {
            registry: self.registry@,
            builtin_provider: self.builtin_provider@,
            base_version: self.base_version@,
            runtime_policy: self.runtime_policy@,
            has_filesystem: self.has_filesystem,
            has_overlay: self.has_overlay,
        }
    }
}

impl DeepView for CapabilityCatalog {
    type V = CapabilityCatalogView;

    open spec fn deep_view(&self) -> CapabilityCatalogView {
        self@
    }
}

impl Clone for CapabilityCatalog {
    fn clone(&self) -> (r: Self)
        ensures
            r@ == self@,
    {
        CapabilityCatalog {
            registry: self.registry.clone(),
            builtin_provider: self.builtin_provider.clone(),
            base_version: self.base_version.clone(),
            runtime_policy: self.runtime_policy.clone(),
            has_filesystem: self.has_filesystem,
            has_overlay: self.has_overlay,
        }
    }
}

/// How the authorizer answered a dispatch.
#[derive(Debug, Clone, Copy, PartialEq, Eq, Structural)]
pub enum AuthorizationDecision {
    Allow,
    RequireApproval,
    Deny,
}

/// Where the input schema of a descriptor comes from.
#[derive(Debug, PartialEq, Eq)]
pub enum SchemaSource {
    /// The descriptor carries it.
    Inline,
    /// The built-in schema with this reference.
    Builtin { reference: String },
    /// The file with this reference under the package root.
    Package { root: String, reference: String },
}

/// The mathematical value of a [`SchemaSource`].
#[verifier::ext_equal]
pub enum SchemaSourceView {
    Inline,
    Builtin { reference: Seq<char> },
    Package { root: Seq<char>, reference: Seq<char> },
}

impl View for SchemaSource {
    type V = SchemaSourceView;

    open spec fn view(&self) -> SchemaSourceView {
        match self {
            SchemaSource::Inline => SchemaSourceView::Inline,
            SchemaSource::Builtin { reference } => SchemaSourceView::Builtin {
                reference: reference@,
            },
            SchemaSource::Package { root, reference } => SchemaSourceView::Package {
                root: root@,
                reference: reference@,
            },
        }
    }
}

impl DeepView for SchemaSource {
    type V = SchemaSourceView;

    open spec fn deep_view(&self) -> SchemaSourceView {
        self@
    }
}

impl Clone for SchemaSource {
    fn clone(&self) -> (r: Self)
        ensures
            r@ == self@,
    {
        match self {
            SchemaSource::Inline => SchemaSource::Inline,
            SchemaSource::Builtin { reference } => SchemaSource::Builtin {
                reference: reference.clone(),
            },
            SchemaSource::Package { root, reference } => SchemaSource::Package {
                root: root.clone(),
                reference: reference.clone(),
            },
        }
    }
}

/// What the host answers about one descriptor.
#[derive(Debug, PartialEq, Eq)]
pub struct DescriptorAnswers {
    /// Whether the runtime policy has a plan for it.
    pub plannable: bool,
    pub decision: AuthorizationDecision,
    /// Built-in schema behind its reference, if there is one.
    pub builtin_schema: Option<String>,
    pub package_schema: SchemaRead,
}

/// The mathematical value of a [`DescriptorAnswers`].
#[verifier::ext_equal]
pub struct DescriptorAnswersView {
    pub plannable: bool,
    pub decision: AuthorizationDecision,
    pub builtin_schema: Option<Seq<char>>,
    pub package_schema: SchemaReadView,
}

impl View for DescriptorAnswers {
    type V = DescriptorAnswersView;

    open spec fn view(&self) -> DescriptorAnswersView {
        DescriptorAnswersView {
            plannable: self.plannable,
            decision: self.decision,
            builtin_schema: self.builtin_schema.deep_view(),
            package_schema: self.package_schema@,
        }
    }
}

impl DeepView for DescriptorAnswers {
    type V = DescriptorAnswersView;

    open spec fn deep_view(&self) -> DescriptorAnswersView {
        self@
    }
}

impl Clone for DescriptorAnswers {
    fn clone(&self) -> (r: Self)
        ensures
            r@ == self@,
    {
        let r = DescriptorAnswers {
            plannable: self.plannable,
            decision: self.decision,
            builtin_schema: self.builtin_schema.clone(),
            package_schema: self.package_schema.clone(),
        };
        assert(r.builtin_schema.deep_view() =~= self.builtin_schema.deep_view());
        r
    }
}

/// What reading a package schema gave.
#[derive(Debug, PartialEq, Eq)]
pub enum SchemaRead {
    /// The schema.
    Text { text: String },
    /// Why it could not be read.
    Failed { error: HostRuntimeError },
}

/// The mathematical value of a [`SchemaRead`].
#[verifier::ext_equal]
pub enum SchemaReadView {
    Text { text: Seq<char> },
    Failed { error: HostRuntimeErrorView },
}

impl View for SchemaRead {
    type V = SchemaReadView;

    open spec fn view(&self) -> SchemaReadView {
        match self {
            SchemaRead::Text { text } => SchemaReadView::Text { text: text@ },
            SchemaRead::Failed { error } => SchemaReadView::Failed { error: error@ },
        }
    }
}

impl DeepView for SchemaRead {
    type V = SchemaReadView;

    open spec fn deep_view(&self) -> SchemaReadView {
        self@
    }
}

impl Clone for SchemaRead {
    fn clone(&self) -> (r: Self)
        ensures
            r@ == self@,
    {
        match self {
            SchemaRead::Text { text } => SchemaRead::Text { text: text.clone() },
            SchemaRead::Failed { error } => SchemaRead::Failed { error: error.clone() },
        }
    }
}

/// Whether the registry lets the model see a capability. A capability that no
/// manifest declares is visible.
pub open spec fn model_visible(registry: ExtensionRegistryView, id: Seq<char>) -> bool {
    match registry.visibility(id) {
        Some(visibility) => visibility == CapabilityVisibility::Model,
        None => true,
    }
}

/// Whether a descriptor passes visibility and surface policy.
pub open spec fn considered(
    catalog: CapabilityCatalogView,
    policy: CapabilitySurfacePolicyView,
    descriptor: CapabilityDescriptorView,
) -> bool {
    &&& model_visible(catalog.registry, descriptor.id)
    &&& policy.admits_runtime(descriptor.runtime)
    &&& policy.admits_effects(descriptor.effects)
}

/// The estimate a visibility check is made with.
pub open spec fn estimate_of(descriptor: CapabilityDescriptorView) -> ResourceEstimateView {
    match descriptor.resource_profile {
        Some(profile) => profile.default_estimate,
        None => no_estimate(),
    }
}

/// How an authorized descriptor is shown; `None` if it is not.
pub open spec fn access_of(
    decision: AuthorizationDecision,
    include_requires_approval: bool,
) -> Option<VisibleCapabilityAccess> {
    match decision {
        AuthorizationDecision::Allow => Some(VisibleCapabilityAccess::Available),
        AuthorizationDecision::RequireApproval => if include_requires_approval {
            Some(VisibleCapabilityAccess::RequiresApproval)
        } else {
            None
        },
        AuthorizationDecision::Deny => None,
    }
}

/// An invalid-request error.
pub open spec fn invalid(reason: Seq<char>) -> HostRuntimeErrorView {
    HostRuntimeErrorView::InvalidRequest { reason }
}

/// Where the schema of a package capability is read, once its reference is
/// checked against the manifest.
pub open spec fn package_schema_source(
    package: ExtensionPackageView,
    id: Seq<char>,
    reference: Seq<char>,
) -> Result<SchemaSourceView, HostRuntimeErrorView> {
    match package.declaration(id) {
        None => Err(invalid("capability "@ + id + " is missing manifest declaration"@)),
        Some(declaration) => if declaration.input_schema_ref != reference {
            Err(
                invalid(
                    "capability "@ + id + " descriptor schema ref "@ + reference
                        + " does not match manifest input schema ref "@
                        + declaration.input_schema_ref,
                ),
            )
        } else {
            Ok(SchemaSourceView::Package { root: package.root, reference })
        },
    }
}

/// Where the schema of a descriptor comes from, given the reference its
/// parameters schema holds.
pub open spec fn schema_source_of(
    catalog: CapabilityCatalogView,
    descriptor: CapabilityDescriptorView,
    reference: Option<Seq<char>>,
) -> Result<SchemaSourceView, HostRuntimeErrorView> {
    if descriptor.provider == catalog.builtin_provider {
        match reference {
            None => Err(
                invalid(
                    "built-in capability "@ + descriptor.id
                        + " must publish from an input schema ref"@,
                ),
            ),
            Some(reference) => Ok(SchemaSourceView::Builtin { reference }),
        }
    } else {
        match (reference, catalog.registry.extension(descriptor.provider)) {
            (Some(reference), Some(package)) => if catalog.has_filesystem {
                package_schema_source(package, descriptor.id, reference)
            } else {
                Ok(SchemaSourceView::Inline)
            },
            _ => Ok(SchemaSourceView::Inline),
        }
    }
}

/// The descriptor with the schema that its source gave.
pub open spec fn with_schema(
    descriptor: CapabilityDescriptorView,
    source: SchemaSourceView,
    builtin_schema: Option<Seq<char>>,
    package_schema: SchemaReadView,
) -> Result<CapabilityDescriptorView, HostRuntimeErrorView> {
    match source {
        SchemaSourceView::Inline => Ok(descriptor),
        SchemaSourceView::Builtin { reference } => match builtin_schema {
            None => Err(
                invalid(
                    "built-in capability "@ + descriptor.id
                        + " references unknown input schema "@ + reference,
                ),
            ),
            Some(schema) => Ok(
                CapabilityDescriptorView { parameters_schema: schema, ..descriptor },
            ),
        },
        SchemaSourceView::Package { root, reference } => match package_schema {
            SchemaReadView::Text { text } => Ok(
                CapabilityDescriptorView { parameters_schema: text, ..descriptor },
            ),
            SchemaReadView::Failed { error } => Err(error),
        },
    }
}

/// The descriptor as it is shown, given the reference its schema holds.
pub open spec fn surfaced(
    catalog: CapabilityCatalogView,
    descriptor: CapabilityDescriptorView,
    reference: Option<Seq<char>>,
    answers: DescriptorAnswersView,
) -> Result<CapabilityDescriptorView, HostRuntimeErrorView> {
    match schema_source_of(catalog, descriptor, reference) {
        Err(error) => Err(error),
        Ok(source) => with_schema(
            descriptor,
            source,
            answers.builtin_schema,
            answers.package_schema,
        ),
    }
}

/// What becomes of a descriptor whose schema was resolved, or could not be. A
/// discovered descriptor is omitted; for the host's own the error stands.
pub open spec fn settled(
    source: DescriptorSource,
    access: VisibleCapabilityAccess,
    estimate: ResourceEstimateView,
    resolved: Result<CapabilityDescriptorView, HostRuntimeErrorView>,
) -> Result<Option<VisibleCapabilityView>, HostRuntimeErrorView> {
    match resolved {
        Ok(descriptor) => Ok(
            Some(VisibleCapabilityView { descriptor, access, estimated_resources: estimate }),
        ),
        Err(error) => match source {
            DescriptorSource::Overlay => Ok(None),
            DescriptorSource::Floor => Err(error),
        },
    }
}

/// The outcome of a whole evaluation: shown, not shown, or an error of the
/// host's own descriptor.
pub open spec fn evaluation(
    catalog: CapabilityCatalogView,
    request: VisibleCapabilityRequestView,
    descriptor: CapabilityDescriptorView,
    source: DescriptorSource,
    reference: Option<Seq<char>>,
    answers: DescriptorAnswersView,
) -> Result<Option<VisibleCapabilityView>, HostRuntimeErrorView> {
    if !considered(catalog, request.policy, descriptor) || !answers.plannable || trust_in(
        request.provider_trust,
        descriptor.provider,
    ) is None {
        Ok(None)
    } else {
        match access_of(answers.decision, request.policy.include_requires_approval) {
            None => Ok(None),
            Some(access) => settled(
                source,
                access,
                estimate_of(descriptor),
                surfaced(catalog, descriptor, reference, answers),
            ),
        }
    }
}

/// The reference a descriptor's parameters schema holds at its root.
pub open spec fn schema_reference(descriptor: CapabilityDescriptorView) -> Option<Seq<char>> {
    root_string_member(descriptor.parameters_schema, "$ref"@)
}

impl CapabilityCatalog {
    /// A catalog without a filesystem and without an overlay.
    pub fn new(
        registry: ExtensionRegistry,
        builtin_provider: ExtensionId,
        base_version: String,
        runtime_policy: String,
    ) -> (r: Self)
        ensures
            r@ == (CapabilityCatalogView {
                registry: registry@,
                builtin_provider: builtin_provider@,
                base_version: base_version@,
                runtime_policy: runtime_policy@,
                has_filesystem: false,
                has_overlay: false,
            }),
    {
        CapabilityCatalog {
            registry,
            builtin_provider,
            base_version,
            runtime_policy,
            has_filesystem: false,
            has_overlay: false,
        }
    }

    /// The catalog with package schemas readable.
    pub fn with_filesystem(self) -> (r: Self)
        ensures
            r@ == (CapabilityCatalogView { has_filesystem: true, ..self@ }),
    {
        CapabilityCatalog {
            registry: self.registry,
            builtin_provider: self.builtin_provider,
            base_version: self.base_version,
            runtime_policy: self.runtime_policy,
            has_filesystem: true,
            has_overlay: self.has_overlay,
        }
    }

    /// The catalog with hosted MCP tools discoverable.
    pub fn with_hosted_mcp_overlay(self) -> (r: Self)
        ensures
            r@ == (CapabilityCatalogView { has_overlay: true, ..self@ }),
    {
        CapabilityCatalog {
            registry: self.registry,
            builtin_provider: self.builtin_provider,
            base_version: self.base_version,
            runtime_policy: self.runtime_policy,
            has_filesystem: self.has_filesystem,
            has_overlay: true,
        }
    }

    /// Whether the model may see a capability.
    pub fn is_model_visible(&self, descriptor: &CapabilityDescriptor) -> (r: bool)
        ensures
            r == model_visible(self@.registry, descriptor@.id),
    {
        match self.registry.capability_visibility(&descriptor.id) {
            Some(visibility) => visibility == CapabilityVisibility::Model,
            None => true,
        }
    }

    /// Whether a descriptor passes visibility and surface policy. One that does
    /// not is omitted before the host is asked anything about it.
    pub fn considers(
        &self,
        policy: &CapabilitySurfacePolicy,
        descriptor: &CapabilityDescriptor,
    ) -> (r: bool)
        ensures
            r == considered(self@, policy@, descriptor@),
    {
        self.is_model_visible(descriptor) && policy.allows_runtime(descriptor.runtime)
            && policy.allows_effects(&descriptor.effects)
    }

    /// Where the schema of a descriptor comes from.
    pub fn schema_source(&self, descriptor: &CapabilityDescriptor) -> (r: Result<
        SchemaSource,
        HostRuntimeError,
    >)
        ensures
            outcome(r) == schema_source_of(self@, descriptor@, schema_reference(descriptor@)),
    {
        let reference = json_string_member(descriptor.parameters_schema.as_str(), "$ref");
        self.schema_source_at(descriptor, reference)
    }

    /// Where the schema of a descriptor comes from, given the reference its
    /// parameters schema holds.
    pub fn schema_source_at(
        &self,
        descriptor: &CapabilityDescriptor,
        reference: Option<String>,
    ) -> (r: Result<SchemaSource, HostRuntimeError>)
        ensures
            outcome(r) == schema_source_of(self@, descriptor@, reference.deep_view()),
    {
        if descriptor.provider == self.builtin_provider {
            return match reference {
                None => Err(
                    HostRuntimeError::invalid_request(
                        joined3(
                            "built-in capability ",
                            descriptor.id.as_str(),
                            " must publish from an input schema ref",
                        ),
                    ),
                ),
                Some(reference) => Ok(SchemaSource::Builtin { reference }),
            };
        }
        match reference {
            None => Ok(SchemaSource::Inline),
            Some(reference) => {
                if !self.has_filesystem {
                    return Ok(SchemaSource::Inline);
                }
                match self.registry.get_extension(&descriptor.provider) {
                    None => Ok(SchemaSource::Inline),
                    Some(package) => resolve_package_input_schema_ref(
                        package,
                        &descriptor.id,
                        reference,
                    ),
                }
            },
        }
    }

    /// The descriptor as it is shown: with its input schema in place of a
    /// reference to it.
    pub fn surface_descriptor(
        &self,
        descriptor: &CapabilityDescriptor,
        answers: &DescriptorAnswers,
    ) -> (r: Result<CapabilityDescriptor, HostRuntimeError>)
        ensures
            outcome(r) == surfaced(
                self@,
                descriptor@,
                schema_reference(descriptor@),
                answers@,
            ),
    {
        let reference = json_string_member(descriptor.parameters_schema.as_str(), "$ref");
        self.surface_descriptor_at(descriptor, reference, answers)
    }

    /// The descriptor as it is shown, given the reference its schema holds.
    pub fn surface_descriptor_at(
        &self,
        descriptor: &CapabilityDescriptor,
        reference: Option<String>,
        answers: &DescriptorAnswers,
    ) -> (r: Result<CapabilityDescriptor, HostRuntimeError>)
        ensures
            outcome(r) == surfaced(self@, descriptor@, reference.deep_view(), answers@),
    {
        match self.schema_source_at(descriptor, reference) {
            Err(error) => Err(error),
            Ok(source) => descriptor_with_schema(
                descriptor,
                &source,
                answers.builtin_schema.clone(),
                answers.package_schema.clone(),
            ),
        }
    }

    /// Runs one descriptor through visibility, policy, planning, trust,
    /// authorization and schema resolution. `Ok(None)` means that it is not
    /// shown, which is never an error.
    pub fn evaluate_descriptor(
        &self,
        descriptor: &CapabilityDescriptor,
        source: DescriptorSource,
        request: &VisibleCapabilityRequest,
        answers: &DescriptorAnswers,
    ) -> (r: Result<Option<VisibleCapability>, HostRuntimeError>)
        ensures
            outcome(r) == evaluation(
                self@,
                request@,
                descriptor@,
                source,
                schema_reference(descriptor@),
                answers@,
            ),
    {
        let reference = json_string_member(descriptor.parameters_schema.as_str(), "$ref");
        self.evaluate_descriptor_at(descriptor, source, request, reference, answers)
    }

    /// The evaluation of a descriptor, given the reference its schema holds.
    pub fn evaluate_descriptor_at(
        &self,
        descriptor: &CapabilityDescriptor,
        source: DescriptorSource,
        request: &VisibleCapabilityRequest,
        reference: Option<String>,
        answers: &DescriptorAnswers,
    ) -> (r: Result<Option<VisibleCapability>, HostRuntimeError>)
        ensures
            outcome(r) == evaluation(
                self@,
                request@,
                descriptor@,
                source,
                reference.deep_view(),
                answers@,
            ),
    {
        if !self.considers(&request.policy, descriptor) || !answers.plannable {
            return Ok(None);
        }
        if provider_trust(&request.provider_trust, &descriptor.provider).is_none() {
            return Ok(None);
        }
        match access_for(answers.decision, &request.policy) {
            None => Ok(None),
            Some(access) => settle(
                source,
                access,
                estimate_for(descriptor),
                self.surface_descriptor_at(descriptor, reference, answers),
            ),
        }
    }
}

/// The trust decision a descriptor is authorized with. Without one it is not
/// shown.
pub fn trust_for<'a>(
    request: &'a VisibleCapabilityRequest,
    descriptor: &CapabilityDescriptor,
) -> (r: Option<&'a TrustDecision>)
    ensures
        r.deep_view() == trust_in(request@.provider_trust, descriptor@.provider),
{
    provider_trust(&request.provider_trust, &descriptor.provider)
}

/// The context a descriptor is authorized in: the request's, with the trust the
/// host gives the provider.
pub fn authorization_context(request: &VisibleCapabilityRequest, trust: &TrustDecision) -> (r:
    ExecutionContext)
    ensures
        r@ == (ExecutionContextView { trust: trust@.effective_trust, ..request@.context }),
{
    let mut context = request.context.clone();
    context.trust = trust.effective_trust;
    context
}

/// The estimate a descriptor is authorized with.
pub fn estimate_for(descriptor: &CapabilityDescriptor) -> (r: ResourceEstimate)
    ensures
        r@ == estimate_of(descriptor@),
{
    match &descriptor.resource_profile {
        Some(profile) => profile.default_estimate.clone(),
        None => ResourceEstimate::default(),
    }
}

/// How an authorized descriptor is shown; `None` if it is not.
pub fn access_for(decision: AuthorizationDecision, policy: &CapabilitySurfacePolicy) -> (r: Option<
    VisibleCapabilityAccess,
>)
    ensures
        r == access_of(decision, policy@.include_requires_approval),
{
    match decision {
        AuthorizationDecision::Allow => Some(VisibleCapabilityAccess::Available),
        AuthorizationDecision::RequireApproval => if policy.include_requires_approval {
            Some(VisibleCapabilityAccess::RequiresApproval)
        } else {
            None
        },
        AuthorizationDecision::Deny => None,
    }
}

/// Where the schema of a package capability is read. The reference has to be
/// the one the manifest declares.
pub fn resolve_package_input_schema_ref(
    package: &ExtensionPackage,
    capability_id: &String,
    reference: String,
) -> (r: Result<SchemaSource, HostRuntimeError>)
    ensures
        outcome(r) == package_schema_source(package@, capability_id@, reference@),
{
    match package.declaration(capability_id) {
        None => Err(
            HostRuntimeError::invalid_request(
                joined3(
                    "capability ",
                    capability_id.as_str(),
                    " is missing manifest declaration",
                ),
            ),
        ),
        Some(declaration) => {
            if declaration.input_schema_ref != reference {
                let head = joined3(
                    "capability ",
                    capability_id.as_str(),
                    " descriptor schema ref ",
                );
                let middle = joined3(
                    head.as_str(),
                    reference.as_str(),
                    " does not match manifest input schema ref ",
                );
                return Err(
                    HostRuntimeError::invalid_request(
                        joined(middle.as_str(), declaration.input_schema_ref.as_str()),
                    ),
                );
            }
            Ok(SchemaSource::Package { root: package.root.clone(), reference })
        },
    }
}

/// The descriptor with the schema that its source gave.
pub fn descriptor_with_schema(
    descriptor: &CapabilityDescriptor,
    source: &SchemaSource,
    builtin_schema: Option<String>,
    package_schema: SchemaRead,
) -> (r: Result<CapabilityDescriptor, HostRuntimeError>)
    ensures
        outcome(r) == with_schema(
            descriptor@,
            source@,
            builtin_schema.deep_view(),
            package_schema@,
        ),
{
    match source {
        SchemaSource::Inline => Ok(descriptor.clone()),
        SchemaSource::Builtin { reference } => match builtin_schema {
            None => {
                let head = joined3(
                    "built-in capability ",
                    descriptor.id.as_str(),
                    " references unknown input schema ",
                );
                Err(HostRuntimeError::invalid_request(joined(head.as_str(), reference.as_str())))
            },
            Some(schema) => {
                let mut shown = descriptor.clone();
                shown.parameters_schema = schema;
                Ok(shown)
            },
        },
        SchemaSource::Package { root: _, reference: _ } => match package_schema {
            SchemaRead::Text { text } => {
                let mut shown = descriptor.clone();
                shown.parameters_schema = text;
                Ok(shown)
            },
            SchemaRead::Failed { error } => Err(error),
        },
    }
}

/// What becomes of a descriptor whose schema was resolved, or could not be.
pub fn settle(
    source: DescriptorSource,
    access: VisibleCapabilityAccess,
    estimate: ResourceEstimate,
    resolved: Result<CapabilityDescriptor, HostRuntimeError>,
) -> (r: Result<Option<VisibleCapability>, HostRuntimeError>)
    ensures
        outcome(r) == settled(source, access, estimate@, outcome(resolved)),
{
    match resolved {
        Ok(descriptor) => Ok(
            Some(VisibleCapability { descriptor, access, estimated_resources: estimate }),
        ),
        Err(error) => match source {
            DescriptorSource::Overlay => Ok(None),
            DescriptorSource::Floor => Err(error),
        },
    }
}

/// A discovered descriptor never fails the evaluation, whatever it holds and
/// whatever the host answers.
pub proof fn law_overlay_descriptor_never_fails(
    catalog: CapabilityCatalogView,
    request: VisibleCapabilityRequestView,
    descriptor: CapabilityDescriptorView,
    reference: Option<Seq<char>>,
    answers: DescriptorAnswersView,
)
    ensures
        evaluation(
            catalog,
            request,
            descriptor,
            DescriptorSource::Overlay,
            reference,
            answers,
        ) is Ok,
{
}

/// A capability is shown only if the policy admits it, its provider is trusted
/// and the authorizer did not deny it; and it is shown as available only if the
/// authorizer allowed it.
pub proof fn law_shown_only_when_authorized(
    catalog: CapabilityCatalogView,
    request: VisibleCapabilityRequestView,
    descriptor: CapabilityDescriptorView,
    source: DescriptorSource,
    reference: Option<Seq<char>>,
    answers: DescriptorAnswersView,
)
    ensures
        evaluation(catalog, request, descriptor, source, reference, answers) matches Ok(
            Some(shown),
        ) ==> {
            &&& considered(catalog, request.policy, descriptor)
            &&& answers.plannable
            &&& trust_in(request.provider_trust, descriptor.provider) is Some
            &&& answers.decision != AuthorizationDecision::Deny
            &&& shown.access == VisibleCapabilityAccess::Available <==> answers.decision
                == AuthorizationDecision::Allow
            &&& shown.descriptor.id == descriptor.id
        },
{
}

/// A descriptor, the host's own or a discovered one, is shown exactly if its
/// manifest does not hide it, the policy lists its runtime and each of its effects,
/// it can be planned, some trust decision names its provider, the authorizer allows
/// it or requires an approval that the policy shows, and its schema resolves. It is
/// then available if it is allowed, and askable if it requires approval. Where only
/// the schema does not resolve, the host's own descriptor fails with that very error.
pub proof fn law_admitted_descriptors_are_shown(
    catalog: CapabilityCatalogView,
    request: VisibleCapabilityRequestView,
    descriptor: CapabilityDescriptorView,
    source: DescriptorSource,
    reference: Option<Seq<char>>,
    answers: DescriptorAnswersView,
)
    ensures
        ({
            let result = evaluation(catalog, request, descriptor, source, reference, answers);
            let visible = catalog.registry.visibility(descriptor.id) != Some(
                CapabilityVisibility::HostInternal,
            );
            let listed = request.policy.allowed_runtimes.contains(descriptor.runtime) && forall|
                effect: EffectKind,
            |
                descriptor.effects.contains(effect) ==> #[trigger]
                request.policy.allowed_effects.contains(effect);
            let trusted = exists|k: int|
                0 <= k < request.provider_trust.len() && (
                #[trigger] request.provider_trust[k]).provider == descriptor.provider;
            let authorized = match answers.decision {
                AuthorizationDecision::Allow => true,
                AuthorizationDecision::RequireApproval => {
                    request.policy.include_requires_approval
                },
                AuthorizationDecision::Deny => false,
            };
            let admitted = visible && listed && answers.plannable && trusted && authorized;
            let resolved = surfaced(catalog, descriptor, reference, answers);
            &&& !admitted ==> result == Ok::<Option<VisibleCapabilityView>, HostRuntimeErrorView>(
                None,
            )
            &&& admitted && resolved is Ok ==> result is Ok && result->Ok_0 is Some && {
                let shown = result->Ok_0->0;
                &&& shown.descriptor == resolved->Ok_0
                &&& answers.decision == AuthorizationDecision::Allow ==> shown.access
                    == VisibleCapabilityAccess::Available
                &&& answers.decision == AuthorizationDecision::RequireApproval ==> shown.access
                    == VisibleCapabilityAccess::RequiresApproval
                &&& descriptor.resource_profile matches Some(profile)
                    ==> shown.estimated_resources == profile.default_estimate
                &&& descriptor.resource_profile is None
                    ==> shown.estimated_resources.network_egress_bytes is None
                    && shown.estimated_resources.limits.len() == 0
            }
            &&& admitted && resolved is Err && source == DescriptorSource::Overlay ==> result
                == Ok::<Option<VisibleCapabilityView>, HostRuntimeErrorView>(None)
            &&& admitted && resolved is Err && source == DescriptorSource::Floor ==> result
                == Err::<Option<VisibleCapabilityView>, HostRuntimeErrorView>(resolved->Err_0)
        }),
{
    law_policy_admits_what_it_lists(request.policy, descriptor.runtime, descriptor.effects);
    law_trust_is_found_by_its_provider(request.provider_trust, descriptor.provider);
}

/// A shown descriptor is the given one in everything but its schema. The schema is
/// the host's for a built-in capability, the one read from the package where a
/// registered package is referred to and can be read, and else the given one.
pub proof fn law_only_the_schema_is_replaced(
    catalog: CapabilityCatalogView,
    descriptor: CapabilityDescriptorView,
    reference: Option<Seq<char>>,
    answers: DescriptorAnswersView,
)
    ensures
        ({
            let builtin = descriptor.provider == catalog.builtin_provider;
            let package = catalog.registry.extension(descriptor.provider);
            let packaged = !builtin && reference is Some && catalog.has_filesystem
                && package is Some;
            let declared = package->0.declaration(descriptor.id);
            match surfaced(catalog, descriptor, reference, answers) {
                Ok(shown) => {
                    &&& shown.id == descriptor.id
                    &&& shown.provider == descriptor.provider
                    &&& shown.runtime == descriptor.runtime
                    &&& shown.trust_ceiling == descriptor.trust_ceiling
                    &&& shown.description == descriptor.description
                    &&& shown.effects == descriptor.effects
                    &&& shown.default_permission == descriptor.default_permission
                    &&& shown.runtime_credentials == descriptor.runtime_credentials
                    &&& shown.resource_profile == descriptor.resource_profile
                    &&& builtin ==> reference is Some && answers.builtin_schema == Some(
                        shown.parameters_schema,
                    )
                    &&& packaged ==> declared is Some && declared->0.input_schema_ref
                        == reference->0 && answers.package_schema == (SchemaReadView::Text {
                        text: shown.parameters_schema,
                    })
                    &&& !builtin && !packaged ==> shown.parameters_schema
                        == descriptor.parameters_schema
                },
                Err(error) => {
                    ||| builtin && (reference is None || answers.builtin_schema is None)
                    ||| packaged && (declared is None || declared->0.input_schema_ref
                        != reference->0)
                    ||| packaged && answers.package_schema == (SchemaReadView::Failed { error })
                },
            }
        }),
{
}

/// A schema that does not resolve says why: a built-in capability without a reference or
/// with an unknown one, and a package capability that its manifest does not declare or
/// declares under another reference.
pub proof fn law_unresolved_schemas_say_why(
    catalog: CapabilityCatalogView,
    descriptor: CapabilityDescriptorView,
    reference: Option<Seq<char>>,
    answers: DescriptorAnswersView,
)
    ensures
        ({
            let builtin = descriptor.provider == catalog.builtin_provider;
            let package = catalog.registry.extension(descriptor.provider);
            let packaged = !builtin && reference is Some && catalog.has_filesystem
                && package is Some;
            let declared = package->0.declaration(descriptor.id);
            let result = surfaced(catalog, descriptor, reference, answers);
            let fails = |reason: Seq<char>|
                Err::<CapabilityDescriptorView, HostRuntimeErrorView>(
                    HostRuntimeErrorView::InvalidRequest { reason },
                );
            &&& builtin && reference is None ==> result == fails(
                "built-in capability "@ + descriptor.id
                    + " must publish from an input schema ref"@,
            )
            &&& builtin && reference is Some && answers.builtin_schema is None ==> result == fails(
                "built-in capability "@ + descriptor.id + " references unknown input schema "@
                    + reference->0,
            )
            &&& packaged && declared is None ==> result == fails(
                "capability "@ + descriptor.id + " is missing manifest declaration"@,
            )
            &&& packaged && declared is Some && declared->0.input_schema_ref != reference->0
                ==> result == fails(
                "capability "@ + descriptor.id + " descriptor schema ref "@ + reference->0
                    + " does not match manifest input schema ref "@
                    + declared->0.input_schema_ref,
            )
        }),
{
}

} // verus!
