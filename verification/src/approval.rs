//! Terms of the leases that an approval issues.
//!
//! A decision is made from the answers known so far; where one is missing, the
//! step says which the host is asked for next.

use vstd::prelude::*;

use crate::capability::{
    CapabilityDescriptor, CapabilityDescriptorView, EffectKind, PermissionMode,
};
use crate::grant::{
    CapabilityGrant, CapabilityGrantView, GrantConstraints, GrantConstraintsView, LeaseApproval,
    LeaseApprovalView, Principal, PrincipalView,
};
use crate::ids::CapabilityId;
use crate::lookup::{
    first_where, lemma_first_where_at, lemma_first_where_found, lemma_first_where_none,
    lemma_first_where_position,
};
use crate::overlay::grants::{
    ambient_grant, ambient_grants, law_ambient_grants_are_narrow,
    law_every_asking_capability_has_an_ambient_grant, DiscoveredCapabilityGrantSource,
    AMBIENT_GRANT_TTL_NANOS,
};
use crate::registry::{
    law_capability_is_found_by_its_id, ExtensionRegistry, ExtensionRegistryView,
};
use crate::scope::{hire_of, HireScope, ResourceScope, ResourceScopeView};

verus! {

/// What an approval was asked for.
#[derive(Debug, PartialEq, Eq)]
pub enum HostAction {
    /// Running a capability.
    Dispatch { capability: CapabilityId },
    /// Running a capability as a process of its own.
    SpawnCapability { capability: CapabilityId },
    /// Anything else.
    Other,
}

/// The mathematical value of a [`HostAction`].
#[verifier::ext_equal]
pub enum HostActionView {
    Dispatch { capability: Seq<char> },
    SpawnCapability { capability: Seq<char> },
    Other,
}

impl View for HostAction {
    type V = HostActionView;

    open spec fn view(&self) -> HostActionView {
        match self {
            HostAction::Dispatch { capability } => HostActionView::Dispatch {
                capability: capability@,
            },
            HostAction::SpawnCapability { capability } => HostActionView::SpawnCapability {
                capability: capability@,
            },
            HostAction::Other => HostActionView::Other,
        }
    }
}

impl DeepView for HostAction {
    type V = HostActionView;

    open spec fn deep_view(&self) -> HostActionView {
        self@
    }
}

impl Clone for HostAction {
    fn clone(&self) -> (r: Self)
        ensures
            r@ == self@,
    {
        match self {
            HostAction::Dispatch { capability } => HostAction::Dispatch {
                capability: capability.clone(),
            },
            HostAction::SpawnCapability { capability } => HostAction::SpawnCapability {
                capability: capability.clone(),
            },
            HostAction::Other => HostAction::Other,
        }
    }
}

/// A gate that waits for approval.
#[derive(Debug, PartialEq, Eq)]
pub struct ApprovalGateRecord {
    pub resource_scope: ResourceScope,
    pub requested_by: Principal,
    pub action: HostAction,
}

/// The mathematical value of a [`ApprovalGateRecord`].
#[verifier::ext_equal]
pub struct ApprovalGateRecordView {
    pub resource_scope: ResourceScopeView,
    pub requested_by: PrincipalView,
    pub action: HostActionView,
}

impl View for ApprovalGateRecord {
    type V = ApprovalGateRecordView;

    open spec fn view(&self) -> ApprovalGateRecordView {
        ApprovalGateRecordView {
            resource_scope: self.resource_scope@,
            requested_by: self.requested_by@,
            action: self.action@,
        }
    }
}

impl DeepView for ApprovalGateRecord {
    type V = ApprovalGateRecordView;

    open spec fn deep_view(&self) -> ApprovalGateRecordView {
        self@
    }
}

impl Clone for ApprovalGateRecord {
    fn clone(&self) -> (r: Self)
        ensures
            r@ == self@,
    {
        ApprovalGateRecord {
            resource_scope: self.resource_scope.clone(),
            requested_by: self.requested_by.clone(),
            action: self.action.clone(),
        }
    }
}

/// An action that leases exist for.
#[derive(Debug, PartialEq, Eq)]
pub struct LocalDevApprovalPolicyAction {
    pub capability: CapabilityId,
    pub spawn: bool,
}

/// The mathematical value of a [`LocalDevApprovalPolicyAction`].
#[verifier::ext_equal]
pub struct LocalDevApprovalPolicyActionView {
    pub capability: Seq<char>,
    pub spawn: bool,
}

impl View for LocalDevApprovalPolicyAction {
    type V = LocalDevApprovalPolicyActionView;

    open spec fn view(&self) -> LocalDevApprovalPolicyActionView {
        LocalDevApprovalPolicyActionView {
            capability: self.capability@,
            spawn: self.spawn,
        }
    }
}

impl DeepView for LocalDevApprovalPolicyAction {
    type V = LocalDevApprovalPolicyActionView;

    open spec fn deep_view(&self) -> LocalDevApprovalPolicyActionView {
        self@
    }
}

impl Clone for LocalDevApprovalPolicyAction {
    fn clone(&self) -> (r: Self)
        ensures
            r@ == self@,
    {
        LocalDevApprovalPolicyAction {
            capability: self.capability.clone(),
            spawn: self.spawn,
        }
    }
}

/// A capability of an active extension.
#[derive(Debug, PartialEq, Eq)]
pub struct ActiveCapability {
    pub id: CapabilityId,
    pub effects: Vec<EffectKind>,
    pub default_permission: PermissionMode,
}

/// The mathematical value of a [`ActiveCapability`].
#[verifier::ext_equal]
pub struct ActiveCapabilityView {
    pub id: Seq<char>,
    pub effects: Seq<EffectKind>,
    pub default_permission: PermissionMode,
}

impl View for ActiveCapability {
    type V = ActiveCapabilityView;

    open spec fn view(&self) -> ActiveCapabilityView {
        ActiveCapabilityView {
            id: self.id@,
            effects: self.effects@,
            default_permission: self.default_permission,
        }
    }
}

impl DeepView for ActiveCapability {
    type V = ActiveCapabilityView;

    open spec fn deep_view(&self) -> ActiveCapabilityView {
        self@
    }
}

impl Clone for ActiveCapability {
    fn clone(&self) -> (r: Self)
        ensures
            r@ == self@,
    {
        let r = ActiveCapability {
            id: self.id.clone(),
            effects: self.effects.clone(),
            default_permission: self.default_permission,
        };
        assert(r.effects@ =~= self.effects@);
        r
    }
}

/// What active extensions offer: their capabilities, and the grants they come
/// to for the caller.
#[derive(Debug, PartialEq, Eq)]
pub struct ExtensionSurface {
    pub capabilities: Vec<ActiveCapability>,
    pub grants: Vec<CapabilityGrant>,
}

/// The mathematical value of a [`ExtensionSurface`].
#[verifier::ext_equal]
pub struct ExtensionSurfaceView {
    pub capabilities: Seq<ActiveCapabilityView>,
    pub grants: Seq<CapabilityGrantView>,
}

impl View for ExtensionSurface {
    type V = ExtensionSurfaceView;

    open spec fn view(&self) -> ExtensionSurfaceView {
        ExtensionSurfaceView {
            capabilities: self.capabilities.deep_view(),
            grants: self.grants.deep_view(),
        }
    }
}

impl DeepView for ExtensionSurface {
    type V = ExtensionSurfaceView;

    open spec fn deep_view(&self) -> ExtensionSurfaceView {
        self@
    }
}

impl Clone for ExtensionSurface {
    fn clone(&self) -> (r: Self)
        ensures
            r@ == self@,
    {
        let r = ExtensionSurface {
            capabilities: self.capabilities.clone(),
            grants: self.grants.clone(),
        };
        assert(r.capabilities.deep_view() =~= self.capabilities.deep_view());
        assert(r.grants.deep_view() =~= self.grants.deep_view());
        r
    }
}

/// Why an approval was rejected.
#[derive(Debug, Clone, Copy, PartialEq, Eq, Structural)]
pub enum ApprovalInteractionRejectionKind {
    UnsupportedAction,
    LeaseTermsUnavailable,
    AlwaysAllowUnsupported,
}

/// What is known of the extension surface.
#[derive(Debug, PartialEq, Eq)]
pub enum SurfaceAnswer {
    Unasked,
    /// It could not be read.
    Unavailable,
    Known { surface: ExtensionSurface },
}

/// The mathematical value of a [`SurfaceAnswer`].
#[verifier::ext_equal]
pub enum SurfaceAnswerView {
    Unasked,
    Unavailable,
    Known { surface: ExtensionSurfaceView },
}

impl View for SurfaceAnswer {
    type V = SurfaceAnswerView;

    open spec fn view(&self) -> SurfaceAnswerView {
        match self {
            SurfaceAnswer::Unasked => SurfaceAnswerView::Unasked,
            SurfaceAnswer::Unavailable => SurfaceAnswerView::Unavailable,
            SurfaceAnswer::Known { surface } => SurfaceAnswerView::Known { surface: surface@ },
        }
    }
}

impl DeepView for SurfaceAnswer {
    type V = SurfaceAnswerView;

    open spec fn deep_view(&self) -> SurfaceAnswerView {
        self@
    }
}

impl Clone for SurfaceAnswer {
    fn clone(&self) -> (r: Self)
        ensures
            r@ == self@,
    {
        match self {
            SurfaceAnswer::Unasked => SurfaceAnswer::Unasked,
            SurfaceAnswer::Unavailable => SurfaceAnswer::Unavailable,
            SurfaceAnswer::Known { surface } => SurfaceAnswer::Known { surface: surface.clone() },
        }
    }
}

/// What is known of the capability policy's lease.
#[derive(Debug, PartialEq, Eq)]
pub enum PolicyAnswer {
    Unasked,
    /// The policy has terms.
    Granted { approval: LeaseApproval },
    /// The policy does not know the capability.
    MissingGrant,
    /// The policy could not answer.
    Failed,
}

/// The mathematical value of a [`PolicyAnswer`].
#[verifier::ext_equal]
pub enum PolicyAnswerView {
    Unasked,
    Granted { approval: LeaseApprovalView },
    MissingGrant,
    Failed,
}

impl View for PolicyAnswer {
    type V = PolicyAnswerView;

    open spec fn view(&self) -> PolicyAnswerView {
        match self {
            PolicyAnswer::Unasked => PolicyAnswerView::Unasked,
            PolicyAnswer::Granted { approval } => PolicyAnswerView::Granted { approval: approval@ },
            PolicyAnswer::MissingGrant => PolicyAnswerView::MissingGrant,
            PolicyAnswer::Failed => PolicyAnswerView::Failed,
        }
    }
}

impl DeepView for PolicyAnswer {
    type V = PolicyAnswerView;

    open spec fn deep_view(&self) -> PolicyAnswerView {
        self@
    }
}

impl Clone for PolicyAnswer {
    fn clone(&self) -> (r: Self)
        ensures
            r@ == self@,
    {
        match self {
            PolicyAnswer::Unasked => PolicyAnswer::Unasked,
            PolicyAnswer::Granted { approval } => PolicyAnswer::Granted {
                approval: approval.clone(),
            },
            PolicyAnswer::MissingGrant => PolicyAnswer::MissingGrant,
            PolicyAnswer::Failed => PolicyAnswer::Failed,
        }
    }
}

/// What is known of the grants of discovered capabilities.
#[derive(Debug, PartialEq, Eq)]
pub enum DiscoveredAnswer {
    Unasked,
    Known { grants: Vec<CapabilityGrant> },
}

/// The mathematical value of a [`DiscoveredAnswer`].
#[verifier::ext_equal]
pub enum DiscoveredAnswerView {
    Unasked,
    Known { grants: Seq<CapabilityGrantView> },
}

impl View for DiscoveredAnswer {
    type V = DiscoveredAnswerView;

    open spec fn view(&self) -> DiscoveredAnswerView {
        match self {
            DiscoveredAnswer::Unasked => DiscoveredAnswerView::Unasked,
            DiscoveredAnswer::Known { grants } => DiscoveredAnswerView::Known {
                grants: grants.deep_view(),
            },
        }
    }
}

impl DeepView for DiscoveredAnswer {
    type V = DiscoveredAnswerView;

    open spec fn deep_view(&self) -> DiscoveredAnswerView {
        self@
    }
}

impl Clone for DiscoveredAnswer {
    fn clone(&self) -> (r: Self)
        ensures
            r@ == self@,
    {
        match self {
            DiscoveredAnswer::Unasked => DiscoveredAnswer::Unasked,
            DiscoveredAnswer::Known { grants } => {
                let grants_copy = grants.clone();
                assert(grants_copy.deep_view() =~= grants.deep_view());
                DiscoveredAnswer::Known { grants: grants_copy }
            },
        }
    }
}

/// What is known when lease terms are decided.
#[derive(Debug, PartialEq, Eq)]
pub struct LeaseAnswers {
    /// Extension surface, as read before the policy.
    pub first_surface: SurfaceAnswer,
    pub policy: PolicyAnswer,
    /// Extension surface, as read after the policy.
    pub surface: SurfaceAnswer,
    pub discovered: DiscoveredAnswer,
}

/// The mathematical value of a [`LeaseAnswers`].
#[verifier::ext_equal]
pub struct LeaseAnswersView {
    pub first_surface: SurfaceAnswerView,
    pub policy: PolicyAnswerView,
    pub surface: SurfaceAnswerView,
    pub discovered: DiscoveredAnswerView,
}

impl View for LeaseAnswers {
    type V = LeaseAnswersView;

    open spec fn view(&self) -> LeaseAnswersView {
        LeaseAnswersView {
            first_surface: self.first_surface@,
            policy: self.policy@,
            surface: self.surface@,
            discovered: self.discovered@,
        }
    }
}

impl DeepView for LeaseAnswers {
    type V = LeaseAnswersView;

    open spec fn deep_view(&self) -> LeaseAnswersView {
        self@
    }
}

impl Clone for LeaseAnswers {
    fn clone(&self) -> (r: Self)
        ensures
            r@ == self@,
    {
        LeaseAnswers {
            first_surface: self.first_surface.clone(),
            policy: self.policy.clone(),
            surface: self.surface.clone(),
            discovered: self.discovered.clone(),
        }
    }
}

/// The next step towards lease terms.
#[derive(Debug, PartialEq, Eq)]
pub enum LeaseStep {
    /// Read the extension surface, before the policy.
    AskFirstSurface,
    /// Ask the capability policy.
    AskPolicy,
    /// Read the extension surface, after the policy.
    AskSurface,
    /// Mint the grants of discovered capabilities: see [`discovered_answer_for`].
    AskDiscovered,
    /// These are the terms.
    Granted { approval: LeaseApproval },
    /// There are none.
    Rejected { kind: ApprovalInteractionRejectionKind },
}

/// The mathematical value of a [`LeaseStep`].
#[verifier::ext_equal]
pub enum LeaseStepView {
    AskFirstSurface,
    AskPolicy,
    AskSurface,
    AskDiscovered,
    Granted { approval: LeaseApprovalView },
    Rejected { kind: ApprovalInteractionRejectionKind },
}

impl View for LeaseStep {
    type V = LeaseStepView;

    open spec fn view(&self) -> LeaseStepView {
        match self {
            LeaseStep::AskFirstSurface => LeaseStepView::AskFirstSurface,
            LeaseStep::AskPolicy => LeaseStepView::AskPolicy,
            LeaseStep::AskSurface => LeaseStepView::AskSurface,
            LeaseStep::AskDiscovered => LeaseStepView::AskDiscovered,
            LeaseStep::Granted { approval } => LeaseStepView::Granted { approval: approval@ },
            LeaseStep::Rejected { kind } => LeaseStepView::Rejected { kind: *kind },
        }
    }
}

impl DeepView for LeaseStep {
    type V = LeaseStepView;

    open spec fn deep_view(&self) -> LeaseStepView {
        self@
    }
}

impl Clone for LeaseStep {
    fn clone(&self) -> (r: Self)
        ensures
            r@ == self@,
    {
        match self {
            LeaseStep::AskFirstSurface => LeaseStep::AskFirstSurface,
            LeaseStep::AskPolicy => LeaseStep::AskPolicy,
            LeaseStep::AskSurface => LeaseStep::AskSurface,
            LeaseStep::AskDiscovered => LeaseStep::AskDiscovered,
            LeaseStep::Granted { approval } => LeaseStep::Granted { approval: approval.clone() },
            LeaseStep::Rejected { kind } => LeaseStep::Rejected { kind: *kind },
        }
    }
}

/// The next step towards a persistent approval.
#[derive(Debug, Clone, Copy, PartialEq, Eq, Structural)]
pub enum PersistentStep {
    /// Ask the capability policy.
    AskPolicy,
    /// Read the extension surface.
    AskSurface,
    /// It is allowed.
    Allowed,
    /// The action has no approvals.
    Unsupported,
    /// It cannot be decided.
    Unavailable,
    /// The capability must be asked for each time.
    Refused,
}

/// The action of a gate, if leases exist for it.
pub open spec fn action_of(action: HostActionView) -> Option<LocalDevApprovalPolicyActionView> {
    match action {
        HostActionView::Dispatch { capability } => Some(
            LocalDevApprovalPolicyActionView { capability, spawn: false },
        ),
        HostActionView::SpawnCapability { capability } => Some(
            LocalDevApprovalPolicyActionView { capability, spawn: true },
        ),
        HostActionView::Other => None,
    }
}

/// The lease that honours a grant once: issued by the host, for one invocation,
/// with every other constraint of the grant.
///
/// The host defines this lease. Its issuer, its single use, its effects and its
/// secrets are known; that mounts, network, resource ceiling and expiry stay
/// those of the grant is this library's reading.
pub open spec fn one_shot(constraints: GrantConstraintsView) -> LeaseApprovalView {
    LeaseApprovalView {
        issued_by: PrincipalView::HostRuntime,
        constraints: GrantConstraintsView { max_invocations: Some(1), ..constraints },
    }
}

/// The first grant of a capability.
pub open spec fn grant_of(grants: Seq<CapabilityGrantView>, capability: Seq<char>) -> Option<
    CapabilityGrantView,
> {
    first_where(grants, |grant: CapabilityGrantView| grant.capability == capability)
}

/// The active capability with an id.
pub open spec fn active_of(capabilities: Seq<ActiveCapabilityView>, id: Seq<char>) -> Option<
    ActiveCapabilityView,
> {
    first_where(capabilities, |capability: ActiveCapabilityView| capability.id == id)
}

/// Whether a permission mode may be approved for good. The modes are defined
/// elsewhere in the host; this library reads them so that only a denied
/// capability may not.
pub open spec fn persistent(mode: PermissionMode) -> bool {
    mode != PermissionMode::Deny
}

/// The terms an extension surface gives: none for a capability it does not
/// grant, and no spawn without the effect of spawning.
pub open spec fn surface_terms(
    action: LocalDevApprovalPolicyActionView,
    surface: ExtensionSurfaceView,
) -> Result<Option<LeaseApprovalView>, ApprovalInteractionRejectionKind> {
    match grant_of(surface.grants, action.capability) {
        None => Ok(None),
        Some(grant) => if action.spawn && !grant.constraints.allowed_effects.contains(
            EffectKind::SpawnProcess,
        ) {
            Err(ApprovalInteractionRejectionKind::LeaseTermsUnavailable)
        } else {
            Ok(Some(one_shot(grant.constraints)))
        },
    }
}

/// The terms of the extension tier; `None` while the surface is still to be
/// read. Only an extension can have such terms.
pub open spec fn extension_tier(
    gate: ApprovalGateRecordView,
    action: LocalDevApprovalPolicyActionView,
    surface: SurfaceAnswerView,
) -> Option<Result<Option<LeaseApprovalView>, ApprovalInteractionRejectionKind>> {
    if !(gate.requested_by is Extension) {
        Some(Ok(None))
    } else {
        match surface {
            SurfaceAnswerView::Unasked => None,
            SurfaceAnswerView::Unavailable => Some(
                Err(ApprovalInteractionRejectionKind::LeaseTermsUnavailable),
            ),
            SurfaceAnswerView::Known { surface } => Some(surface_terms(action, surface)),
        }
    }
}

/// The terms of the discovery tier; `None` while grants are still to be minted.
/// A discovered capability is dispatched, never spawned.
pub open spec fn discovered_tier(
    gate: ApprovalGateRecordView,
    action: LocalDevApprovalPolicyActionView,
    discovered: DiscoveredAnswerView,
) -> Option<Result<Option<LeaseApprovalView>, ApprovalInteractionRejectionKind>> {
    if !(gate.requested_by is Extension) {
        Some(Ok(None))
    } else {
        match discovered {
            DiscoveredAnswerView::Unasked => None,
            DiscoveredAnswerView::Known { grants } => match grant_of(grants, action.capability) {
                None => Some(Ok(None)),
                Some(grant) => if action.spawn {
                    Some(Err(ApprovalInteractionRejectionKind::LeaseTermsUnavailable))
                } else {
                    Some(Ok(Some(one_shot(grant.constraints))))
                },
            },
        }
    }
}

/// The step once the extension surface had its say before the policy.
pub open spec fn policy_step(
    gate: ApprovalGateRecordView,
    action: LocalDevApprovalPolicyActionView,
    answers: LeaseAnswersView,
) -> LeaseStepView {
    match answers.policy {
        PolicyAnswerView::Unasked => LeaseStepView::AskPolicy,
        PolicyAnswerView::Granted { approval } => LeaseStepView::Granted { approval },
        PolicyAnswerView::Failed => LeaseStepView::Rejected {
            kind: ApprovalInteractionRejectionKind::LeaseTermsUnavailable,
        },
        PolicyAnswerView::MissingGrant => match extension_tier(gate, action, answers.surface) {
            None => LeaseStepView::AskSurface,
            Some(Err(kind)) => LeaseStepView::Rejected { kind },
            Some(Ok(Some(approval))) => LeaseStepView::Granted { approval },
            Some(Ok(None)) => match discovered_tier(gate, action, answers.discovered) {
                None => LeaseStepView::AskDiscovered,
                Some(Err(kind)) => LeaseStepView::Rejected { kind },
                Some(Ok(Some(approval))) => LeaseStepView::Granted { approval },
                Some(Ok(None)) => LeaseStepView::Rejected {
                    kind: ApprovalInteractionRejectionKind::LeaseTermsUnavailable,
                },
            },
        },
    }
}

/// The next step towards lease terms. For a spawn the extension surface comes
/// first; then the policy; then, for what the policy does not know, the
/// extension surface and the discovered capabilities.
pub open spec fn lease_step(gate: ApprovalGateRecordView, answers: LeaseAnswersView) -> LeaseStepView {
    match action_of(gate.action) {
        None => LeaseStepView::Rejected {
            kind: ApprovalInteractionRejectionKind::UnsupportedAction,
        },
        Some(action) => if action.spawn {
            match extension_tier(gate, action, answers.first_surface) {
                None => LeaseStepView::AskFirstSurface,
                Some(Err(kind)) => LeaseStepView::Rejected { kind },
                Some(Ok(Some(approval))) => LeaseStepView::Granted { approval },
                Some(Ok(None)) => policy_step(gate, action, answers),
            }
        } else {
            policy_step(gate, action, answers)
        },
    }
}

/// Whether an extension surface allows a persistent approval.
pub open spec fn surface_allows(
    action: LocalDevApprovalPolicyActionView,
    surface: ExtensionSurfaceView,
) -> bool {
    match active_of(surface.capabilities, action.capability) {
        None => false,
        Some(capability) => (action.spawn ==> capability.effects.contains(
            EffectKind::SpawnProcess,
        )) && persistent(capability.default_permission),
    }
}

/// The next step towards a persistent approval. A registered capability is
/// decided by its default permission; the outbound target set also by the
/// policy; everything else by the extension surface.
pub open spec fn persistent_step(
    registry: ExtensionRegistryView,
    outbound_target_set: Seq<char>,
    gate: ApprovalGateRecordView,
    policy: PolicyAnswerView,
    surface: SurfaceAnswerView,
) -> PersistentStep {
    match action_of(gate.action) {
        None => PersistentStep::Unsupported,
        Some(action) => match registry.capability(action.capability) {
            Some(descriptor) => if persistent(descriptor.default_permission) {
                PersistentStep::Allowed
            } else {
                PersistentStep::Refused
            },
            None => {
                if action.capability == outbound_target_set && !(policy is MissingGrant) {
                    match policy {
                        PolicyAnswerView::Unasked => PersistentStep::AskPolicy,
                        PolicyAnswerView::Granted { approval } => PersistentStep::Allowed,
                        _ => PersistentStep::Unavailable,
                    }
                } else {
                    match surface {
                        SurfaceAnswerView::Unasked => PersistentStep::AskSurface,
                        SurfaceAnswerView::Unavailable => PersistentStep::Unavailable,
                        SurfaceAnswerView::Known { surface } => if surface_allows(
                            action,
                            surface,
                        ) {
                            PersistentStep::Allowed
                        } else {
                            PersistentStep::Refused
                        },
                    }
                }
            },
        },
    }
}

/// The verdict of a persistent-approval step that asks for nothing.
pub open spec fn verdict_of(step: PersistentStep) -> Option<
    Result<(), ApprovalInteractionRejectionKind>,
> {
    match step {
        PersistentStep::AskPolicy => None,
        PersistentStep::AskSurface => None,
        PersistentStep::Allowed => Some(Ok(())),
        PersistentStep::Unsupported => Some(
            Err(ApprovalInteractionRejectionKind::UnsupportedAction),
        ),
        PersistentStep::Unavailable => Some(
            Err(ApprovalInteractionRejectionKind::LeaseTermsUnavailable),
        ),
        PersistentStep::Refused => Some(
            Err(ApprovalInteractionRejectionKind::AlwaysAllowUnsupported),
        ),
    }
}

impl LocalDevApprovalPolicyAction {
    /// The action of a gate, if leases exist for it.
    pub fn from_host_action(action: &HostAction) -> (r: Option<Self>)
        ensures
            r.deep_view() == action_of(action@),
    {
        match action {
            HostAction::Dispatch { capability } => Some(
                LocalDevApprovalPolicyAction { capability: capability.clone(), spawn: false },
            ),
            HostAction::SpawnCapability { capability } => Some(
                LocalDevApprovalPolicyAction { capability: capability.clone(), spawn: true },
            ),
            HostAction::Other => None,
        }
    }
}

/// Whether a permission mode may be approved for good.
pub fn permission_mode_allows_persistent_approval(mode: PermissionMode) -> (r: bool)
    ensures
        r == persistent(mode),
{
    match mode {
        PermissionMode::Deny => false,
        _ => true,
    }
}

/// The lease that honours a grant once; see [`one_shot`] for what of it is a
/// reading.
pub fn local_dev_one_shot_lease_approval(constraints: GrantConstraints) -> (r: LeaseApproval)
    ensures
        r@ == one_shot(constraints@),
{
    let mut once = constraints;
    once.max_invocations = Some(1);
    LeaseApproval { issued_by: Principal::HostRuntime, constraints: once }
}

/// The first grant of a capability.
pub fn find_grant<'a>(grants: &'a Vec<CapabilityGrant>, capability: &CapabilityId) -> (r: Option<
    &'a CapabilityGrant,
>)
    ensures
        r.deep_view() == grant_of(grants.deep_view(), capability@),
{
    let ghost views = grants.deep_view();
    let ghost wanted = |grant: CapabilityGrantView| grant.capability == capability@;
    let mut i: usize = 0;
    while i < grants.len()
        invariant
            views == grants.deep_view(),
            wanted == (|grant: CapabilityGrantView| grant.capability == capability@),
            i <= grants@.len(),
            forall|k: int| 0 <= k < i ==> !wanted(#[trigger] views[k]),
        decreases grants@.len() - i,
    {
        assert(views[i as int] == grants@[i as int]@);
        if grants[i].capability == *capability {
            proof {
                lemma_first_where_at(views, wanted, i as int);
            }
            return Some(&grants[i]);
        }
        i = i + 1;
    }
    proof {
        lemma_first_where_none(views, wanted);
    }
    None
}

fn find_active<'a>(capabilities: &'a Vec<ActiveCapability>, id: &CapabilityId) -> (r: Option<
    &'a ActiveCapability,
>)
    ensures
        r.deep_view() == active_of(capabilities.deep_view(), id@),
{
    let ghost views = capabilities.deep_view();
    let ghost wanted = |capability: ActiveCapabilityView| capability.id == id@;
    let mut i: usize = 0;
    while i < capabilities.len()
        invariant
            views == capabilities.deep_view(),
            wanted == (|capability: ActiveCapabilityView| capability.id == id@),
            i <= capabilities@.len(),
            forall|k: int| 0 <= k < i ==> !wanted(#[trigger] views[k]),
        decreases capabilities@.len() - i,
    {
        assert(views[i as int] == capabilities@[i as int]@);
        if capabilities[i].id == *id {
            proof {
                lemma_first_where_at(views, wanted, i as int);
            }
            return Some(&capabilities[i]);
        }
        i = i + 1;
    }
    proof {
        lemma_first_where_none(views, wanted);
    }
    None
}

fn spawns(effects: &Vec<EffectKind>) -> (r: bool)
    ensures
        r == effects@.contains(EffectKind::SpawnProcess),
{
    let mut i: usize = 0;
    while i < effects.len()
        invariant
            i <= effects@.len(),
            forall|k: int| 0 <= k < i ==> effects@[k] != EffectKind::SpawnProcess,
        decreases effects@.len() - i,
    {
        if effects[i] == EffectKind::SpawnProcess {
            return true;
        }
        i = i + 1;
    }
    false
}

/// The mathematical value of a tier's terms.
pub open spec fn terms_view(
    terms: Option<Result<Option<LeaseApproval>, ApprovalInteractionRejectionKind>>,
) -> Option<Result<Option<LeaseApprovalView>, ApprovalInteractionRejectionKind>> {
    match terms {
        None => None,
        Some(Err(kind)) => Some(Err(kind)),
        Some(Ok(approval)) => Some(Ok(approval.deep_view())),
    }
}

/// The terms of the extension tier for the capability of an action.
pub fn extension_lease_terms_for_active_capability(
    gate: &ApprovalGateRecord,
    action: &LocalDevApprovalPolicyAction,
    surface: &SurfaceAnswer,
) -> (r: Option<Result<Option<LeaseApproval>, ApprovalInteractionRejectionKind>>)
    ensures
        terms_view(r) == extension_tier(gate@, action@, surface@),
{
    match &gate.requested_by {
        Principal::HostRuntime => Some(Ok(None)),
        Principal::Other(_) => Some(Ok(None)),
        Principal::Extension(_) => match surface {
            SurfaceAnswer::Unasked => None,
            SurfaceAnswer::Unavailable => Some(Err(lease_terms_unavailable())),
            SurfaceAnswer::Known { surface } => match find_grant(
                &surface.grants,
                &action.capability,
            ) {
                None => Some(Ok(None)),
                Some(grant) => if action.spawn && !spawns(&grant.constraints.allowed_effects) {
                    Some(Err(lease_terms_unavailable()))
                } else {
                    Some(
                        Ok(Some(local_dev_one_shot_lease_approval(grant.constraints.clone()))),
                    )
                },
            },
        },
    }
}

/// The terms of the discovery tier for the capability of an action.
pub fn discovered_capability_lease_terms_for(
    gate: &ApprovalGateRecord,
    action: &LocalDevApprovalPolicyAction,
    discovered: &DiscoveredAnswer,
) -> (r: Option<Result<Option<LeaseApproval>, ApprovalInteractionRejectionKind>>)
    ensures
        terms_view(r) == discovered_tier(gate@, action@, discovered@),
{
    match &gate.requested_by {
        Principal::HostRuntime => Some(Ok(None)),
        Principal::Other(_) => Some(Ok(None)),
        Principal::Extension(_) => match discovered {
            DiscoveredAnswer::Unasked => None,
            DiscoveredAnswer::Known { grants } => match find_grant(grants, &action.capability) {
                None => Some(Ok(None)),
                Some(grant) => if action.spawn {
                    Some(Err(lease_terms_unavailable()))
                } else {
                    Some(
                        Ok(Some(local_dev_one_shot_lease_approval(grant.constraints.clone()))),
                    )
                },
            },
        },
    }
}

/// What discovery answers for an approval: the ambient grants of what was discovered
/// for the hire that its own scope names, made to the extension that asks. There are
/// none without an overlay, without a hire, or for anyone but an extension.
pub open spec fn discovered_for(
    gate: ApprovalGateRecordView,
    source: DiscoveredCapabilityGrantSource,
    discovered: Seq<CapabilityDescriptorView>,
    now: i128,
) -> DiscoveredAnswerView {
    DiscoveredAnswerView::Known {
        grants: match gate.requested_by {
            PrincipalView::Extension(grantee) => if source.has_overlay && hire_of(
                gate.resource_scope,
            ) is Some {
                ambient_grants(discovered, grantee, now)
            } else {
                Seq::empty()
            },
            _ => Seq::empty(),
        },
    }
}

/// The hire to discover for, before a gate is answered. `None` means that
/// discovery is not asked.
pub fn hire_to_discover_for(
    gate: &ApprovalGateRecord,
    source: &DiscoveredCapabilityGrantSource,
) -> (r: Option<HireScope>)
    ensures
        r.deep_view() == (if source.has_overlay && gate@.requested_by is Extension {
            hire_of(gate@.resource_scope)
        } else {
            None
        }),
{
    match &gate.requested_by {
        Principal::Extension(_) => source.hire_to_discover(&gate.resource_scope),
        _ => None,
    }
}

/// What discovery answers for a gate, given what was discovered for its hire.
pub fn discovered_answer_for(
    gate: &ApprovalGateRecord,
    source: &DiscoveredCapabilityGrantSource,
    discovered: &Vec<CapabilityDescriptor>,
    now: i128,
) -> (r: DiscoveredAnswer)
    requires
        now + AMBIENT_GRANT_TTL_NANOS <= i128::MAX,
    ensures
        r@ == discovered_for(gate@, *source, discovered.deep_view(), now),
{
    let grants: Vec<CapabilityGrant> = match &gate.requested_by {
        Principal::Extension(grantee) => source.grants_for_scope(
            &gate.resource_scope,
            grantee,
            discovered,
            now,
        ),
        _ => Vec::new(),
    };
    let answer = DiscoveredAnswer::Known { grants };
    assert(answer@ =~= discovered_for(gate@, *source, discovered.deep_view(), now));
    answer
}

/// The rejection of an approval whose terms cannot be had.
pub fn lease_terms_unavailable() -> (r: ApprovalInteractionRejectionKind)
    ensures
        r == ApprovalInteractionRejectionKind::LeaseTermsUnavailable,
{
    ApprovalInteractionRejectionKind::LeaseTermsUnavailable
}

/// Decides the terms of approvals.
#[derive(Debug, PartialEq, Eq)]
pub struct LocalDevApprovalLeaseTermsProvider {
    pub registry: ExtensionRegistry,
    /// Capability that sets outbound delivery targets.
    pub outbound_target_set: CapabilityId,
}

/// The mathematical value of a [`LocalDevApprovalLeaseTermsProvider`].
#[verifier::ext_equal]
pub struct LocalDevApprovalLeaseTermsProviderView {
    pub registry: ExtensionRegistryView,
    pub outbound_target_set: Seq<char>,
}

impl View for LocalDevApprovalLeaseTermsProvider {
    type V = LocalDevApprovalLeaseTermsProviderView;

    open spec fn view(&self) -> LocalDevApprovalLeaseTermsProviderView {
        LocalDevApprovalLeaseTermsProviderView {
            registry: self.registry@,
            outbound_target_set: self.outbound_target_set@,
        }
    }
}

impl DeepView for LocalDevApprovalLeaseTermsProvider {
    type V = LocalDevApprovalLeaseTermsProviderView;

    open spec fn deep_view(&self) -> LocalDevApprovalLeaseTermsProviderView {
        self@
    }
}

impl Clone for LocalDevApprovalLeaseTermsProvider {
    fn clone(&self) -> (r: Self)
        ensures
            r@ == self@,
    {
        LocalDevApprovalLeaseTermsProvider {
            registry: self.registry.clone(),
            outbound_target_set: self.outbound_target_set.clone(),
        }
    }
}

impl LocalDevApprovalLeaseTermsProvider {
    /// A provider over a registry.
    pub fn new(registry: ExtensionRegistry, outbound_target_set: CapabilityId) -> (r: Self)
        ensures
            r@.registry == registry@,
            r@.outbound_target_set == outbound_target_set@,
    {
        LocalDevApprovalLeaseTermsProvider { registry, outbound_target_set }
    }

    /// The next step towards the lease terms of a gate.
    pub fn lease_terms_for(&self, gate: &ApprovalGateRecord, answers: &LeaseAnswers) -> (r:
        LeaseStep)
        ensures
            r@ == lease_step(gate@, answers@),
    {
        let action = match LocalDevApprovalPolicyAction::from_host_action(&gate.action) {
            None => {
                return LeaseStep::Rejected {
                    kind: ApprovalInteractionRejectionKind::UnsupportedAction,
                };
            },
            Some(action) => action,
        };
        if action.spawn {
            match extension_lease_terms_for_active_capability(
                gate,
                &action,
                &answers.first_surface,
            ) {
                None => return LeaseStep::AskFirstSurface,
                Some(Err(kind)) => return LeaseStep::Rejected { kind },
                Some(Ok(Some(approval))) => return LeaseStep::Granted { approval },
                Some(Ok(None)) => {},
            }
        }
        match &answers.policy {
            PolicyAnswer::Unasked => LeaseStep::AskPolicy,
            PolicyAnswer::Granted { approval } => LeaseStep::Granted {
                approval: approval.clone(),
            },
            PolicyAnswer::Failed => LeaseStep::Rejected { kind: lease_terms_unavailable() },
            PolicyAnswer::MissingGrant => {
                match extension_lease_terms_for_active_capability(
                    gate,
                    &action,
                    &answers.surface,
                ) {
                    None => return LeaseStep::AskSurface,
                    Some(Err(kind)) => return LeaseStep::Rejected { kind },
                    Some(Ok(Some(approval))) => return LeaseStep::Granted { approval },
                    Some(Ok(None)) => {},
                }
                match discovered_capability_lease_terms_for(gate, &action, &answers.discovered) {
                    None => LeaseStep::AskDiscovered,
                    Some(Err(kind)) => LeaseStep::Rejected { kind },
                    Some(Ok(Some(approval))) => LeaseStep::Granted { approval },
                    Some(Ok(None)) => LeaseStep::Rejected { kind: lease_terms_unavailable() },
                }
            },
        }
    }

    /// The next step towards a persistent approval of a gate.
    pub fn persistent_approval_allowed(
        &self,
        gate: &ApprovalGateRecord,
        policy: &PolicyAnswer,
        surface: &SurfaceAnswer,
    ) -> (r: PersistentStep)
        ensures
            r == persistent_step(
                self@.registry,
                self@.outbound_target_set,
                gate@,
                policy@,
                surface@,
            ),
    {
        let action = match LocalDevApprovalPolicyAction::from_host_action(&gate.action) {
            None => return PersistentStep::Unsupported,
            Some(action) => action,
        };
        match self.registry.get_capability(&action.capability) {
            Some(descriptor) => {
                return if permission_mode_allows_persistent_approval(
                    descriptor.default_permission,
                ) {
                    PersistentStep::Allowed
                } else {
                    PersistentStep::Refused
                };
            },
            None => {},
        }
        if action.capability == self.outbound_target_set {
            match policy {
                PolicyAnswer::Unasked => return PersistentStep::AskPolicy,
                PolicyAnswer::Granted { approval: _ } => return PersistentStep::Allowed,
                PolicyAnswer::Failed => return PersistentStep::Unavailable,
                PolicyAnswer::MissingGrant => {},
            }
        }
        match surface {
            SurfaceAnswer::Unasked => PersistentStep::AskSurface,
            SurfaceAnswer::Unavailable => PersistentStep::Unavailable,
            SurfaceAnswer::Known { surface } => if active_extension_persistent_approval_allowed(
                &action,
                surface,
            ) {
                PersistentStep::Allowed
            } else {
                PersistentStep::Refused
            },
        }
    }
}

/// Whether an extension surface allows a persistent approval.
pub fn active_extension_persistent_approval_allowed(
    action: &LocalDevApprovalPolicyAction,
    surface: &ExtensionSurface,
) -> (r: bool)
    ensures
        r == surface_allows(action@, surface@),
{
    match find_active(&surface.capabilities, &action.capability) {
        None => false,
        Some(capability) => if action.spawn && !spawns(&capability.effects) {
            false
        } else {
            permission_mode_allows_persistent_approval(capability.default_permission)
        },
    }
}

/// The verdict of a persistent-approval step; `None` while it asks for
/// something.
pub fn persistent_verdict(step: PersistentStep) -> (r: Option<
    Result<(), ApprovalInteractionRejectionKind>,
>)
    ensures
        r == verdict_of(step),
{
    match step {
        PersistentStep::AskPolicy => None,
        PersistentStep::AskSurface => None,
        PersistentStep::Allowed => Some(Ok(())),
        PersistentStep::Unsupported => Some(
            Err(ApprovalInteractionRejectionKind::UnsupportedAction),
        ),
        PersistentStep::Unavailable => Some(Err(lease_terms_unavailable())),
        PersistentStep::Refused => Some(
            Err(ApprovalInteractionRejectionKind::AlwaysAllowUnsupported),
        ),
    }
}

/// Terms that do not come from the capability policy are good for exactly one
/// invocation and are issued by the host.
pub proof fn law_leases_outside_the_policy_are_one_shot(
    gate: ApprovalGateRecordView,
    answers: LeaseAnswersView,
)
    requires
        !(answers.policy is Granted),
    ensures
        lease_step(gate, answers) matches LeaseStepView::Granted { approval } ==> approval.issued_by
            == PrincipalView::HostRuntime && approval.constraints.max_invocations == Some(1u64),
{
}

/// A capability that neither the policy, nor the extension surface, nor
/// discovery grants is rejected.
pub proof fn law_unknown_capability_fails_closed(
    gate: ApprovalGateRecordView,
    answers: LeaseAnswersView,
    surface: ExtensionSurfaceView,
    grants: Seq<CapabilityGrantView>,
)
    requires
        action_of(gate.action) is Some,
        answers.policy is MissingGrant,
        answers.first_surface == (SurfaceAnswerView::Known { surface }),
        answers.surface == (SurfaceAnswerView::Known { surface }),
        answers.discovered == (DiscoveredAnswerView::Known { grants }),
        grant_of(surface.grants, action_of(gate.action)->0.capability) is None,
        grant_of(grants, action_of(gate.action)->0.capability) is None,
    ensures
        lease_step(gate, answers) == (LeaseStepView::Rejected {
            kind: ApprovalInteractionRejectionKind::LeaseTermsUnavailable,
        }),
{
}

/// A discovered capability is never leased for a spawn: a spawn that is granted
/// is granted by the policy, or by an extension surface that gives the effect of
/// spawning.
pub proof fn law_discovered_capabilities_are_never_spawned(
    gate: ApprovalGateRecordView,
    answers: LeaseAnswersView,
)
    requires
        gate.action is SpawnCapability,
        !(answers.policy is Granted),
    ensures
        lease_step(gate, answers) matches LeaseStepView::Granted { approval }
            ==> approval.constraints.allowed_effects.contains(EffectKind::SpawnProcess),
{
}

/// What neither the policy nor the extension surface grants is leased exactly
/// where an extension asks, in the scope of a hire, to dispatch a capability that was
/// discovered for that hire and asks before use. The lease is then one-shot, on the
/// terms of that capability's ambient grant.
pub proof fn law_discovered_leases_are_ambient_grants_of_the_gate(
    gate: ApprovalGateRecordView,
    answers: LeaseAnswersView,
    surface: ExtensionSurfaceView,
    source: DiscoveredCapabilityGrantSource,
    discovered: Seq<CapabilityDescriptorView>,
    now: i128,
)
    requires
        action_of(gate.action) is Some,
        answers.policy is MissingGrant,
        answers.first_surface == (SurfaceAnswerView::Known { surface }),
        answers.surface == (SurfaceAnswerView::Known { surface }),
        grant_of(surface.grants, action_of(gate.action)->0.capability) is None,
        answers.discovered == discovered_for(gate, source, discovered, now),
        now + AMBIENT_GRANT_TTL_NANOS <= i128::MAX,
    ensures
        ({
            let action = action_of(gate.action)->0;
            let step = lease_step(gate, answers);
            let may_lease = !action.spawn && gate.requested_by is Extension && source.has_overlay
                && hire_of(gate.resource_scope) is Some;
            &&& step is Granted <==> may_lease && exists|k: int|
                0 <= k < discovered.len() && asked_for(#[trigger] discovered[k], action)
            &&& step is Granted ==> exists|k: int|
                0 <= k < discovered.len() && asked_for(#[trigger] discovered[k], action)
                    && step->approval == one_shot(
                    ambient_grant(discovered[k], gate.requested_by->Extension_0, now).constraints,
                )
            &&& !(step is Granted) ==> step is Rejected
        }),
{
    let action = action_of(gate.action)->0;
    let grants = answers.discovered->grants;
    let wanted = |grant: CapabilityGrantView| grant.capability == action.capability;
    lemma_first_where_found(grants, wanted);
    if gate.requested_by is Extension && source.has_overlay && hire_of(
        gate.resource_scope,
    ) is Some {
        let grantee = gate.requested_by->Extension_0;
        match grant_of(grants, action.capability) {
            Some(grant) => {
                let at = choose|at: int| 0 <= at < grants.len() && grants[at] == grant;
                law_ambient_grants_are_narrow(discovered, grantee, now, at);
                let k = choose|k: int|
                    0 <= k < discovered.len() && (#[trigger] discovered[k]).default_permission
                        == PermissionMode::Ask && grants[at] == ambient_grant(
                        discovered[k],
                        grantee,
                        now,
                    );
                assert(asked_for(discovered[k], action));
            },
            None => {
                assert forall|k: int| 0 <= k < discovered.len() implies !asked_for(
                    #[trigger] discovered[k],
                    action,
                ) by {
                    if asked_for(discovered[k], action) {
                        law_every_asking_capability_has_an_ambient_grant(
                            discovered,
                            grantee,
                            now,
                            k,
                        );
                        let granted = ambient_grant(discovered[k], grantee, now);
                        let at = choose|at: int| 0 <= at < grants.len() && grants[at] == granted;
                        assert(!wanted(grants[at]));
                    }
                }
            },
        }
    }
}

/// Whether a discovered capability is the one an action is for, and asks before
/// use.
pub open spec fn asked_for(
    descriptor: CapabilityDescriptorView,
    action: LocalDevApprovalPolicyActionView,
) -> bool {
    descriptor.id == action.capability && descriptor.default_permission == PermissionMode::Ask
}

/// A decision, once made, does not change when more becomes known.
pub proof fn law_lease_decisions_are_final(
    gate: ApprovalGateRecordView,
    answers: LeaseAnswersView,
    more: LeaseAnswersView,
)
    requires
        answers.first_surface is Unasked || more.first_surface == answers.first_surface,
        answers.policy is Unasked || more.policy == answers.policy,
        answers.surface is Unasked || more.surface == answers.surface,
        answers.discovered is Unasked || more.discovered == answers.discovered,
        lease_step(gate, answers) is Granted || lease_step(gate, answers) is Rejected,
    ensures
        lease_step(gate, more) == lease_step(gate, answers),
{
}

/// A grant is looked up by its capability among all grants, at whatever position it
/// stands; the first of several for one capability is found.
pub proof fn law_grant_is_found_by_its_capability(
    grants: Seq<CapabilityGrantView>,
    capability: Seq<char>,
)
    ensures
        match grant_of(grants, capability) {
            Some(found) => exists|at: int|
                0 <= at < grants.len() && #[trigger] grants[at] == found && found.capability
                    == capability && forall|k: int|
                    0 <= k < at ==> (#[trigger] grants[k]).capability != capability,
            None => forall|k: int|
                0 <= k < grants.len() ==> (#[trigger] grants[k]).capability != capability,
        },
{
    lemma_first_where_position(
        grants,
        |grant: CapabilityGrantView| grant.capability == capability,
    );
}

/// An active capability is looked up by its id among all of a surface, at whatever
/// position it stands; the first of several with one id is found.
pub proof fn law_active_capability_is_found_by_its_id(
    capabilities: Seq<ActiveCapabilityView>,
    id: Seq<char>,
)
    ensures
        match active_of(capabilities, id) {
            Some(found) => exists|at: int|
                0 <= at < capabilities.len() && #[trigger] capabilities[at] == found && found.id
                    == id && forall|k: int|
                    0 <= k < at ==> (#[trigger] capabilities[k]).id != id,
            None => forall|k: int|
                0 <= k < capabilities.len() ==> (#[trigger] capabilities[k]).id != id,
        },
{
    lemma_first_where_position(
        capabilities,
        |capability: ActiveCapabilityView| capability.id == id,
    );
}

/// A capability that the registry does not publish, and that is not the outbound target
/// set, may be approved for good exactly if an active capability of the surface, at
/// whatever position, has its id and is not denied, and, for a spawn, has the effect of
/// spawning.
pub proof fn law_persistent_approval_follows_the_surface(
    registry: ExtensionRegistryView,
    outbound_target_set: Seq<char>,
    gate: ApprovalGateRecordView,
    policy: PolicyAnswerView,
    surface: ExtensionSurfaceView,
    capability: Seq<char>,
)
    requires
        gate.action == (HostActionView::Dispatch { capability }) || gate.action == (
        HostActionView::SpawnCapability { capability }),
        forall|k: int|
            0 <= k < registry.capabilities.len() ==> (#[trigger] registry.capabilities[k]).id
                != capability,
        capability != outbound_target_set || policy is MissingGrant,
        forall|i: int, j: int|
            0 <= i < j < surface.capabilities.len() ==> (#[trigger] surface.capabilities[i]).id != (
            #[trigger] surface.capabilities[j]).id,
    ensures
        ({
            let step = persistent_step(
                registry,
                outbound_target_set,
                gate,
                policy,
                SurfaceAnswerView::Known { surface },
            );
            let allowed = exists|k: int|
                0 <= k < surface.capabilities.len() && (#[trigger] surface.capabilities[k]).id
                    == capability && surface.capabilities[k].default_permission
                    != PermissionMode::Deny && (gate.action is SpawnCapability
                    ==> surface.capabilities[k].effects.contains(EffectKind::SpawnProcess));
            &&& allowed ==> step == PersistentStep::Allowed
            &&& !allowed ==> step == PersistentStep::Refused
        }),
{
    law_capability_is_found_by_its_id(registry, capability);
    law_active_capability_is_found_by_its_id(surface.capabilities, capability);
    if let Some(found) = active_of(surface.capabilities, capability) {
        let at = choose|at: int|
            0 <= at < surface.capabilities.len() && #[trigger] surface.capabilities[at] == found
                && found.id == capability && forall|k: int|
                0 <= k < at ==> (#[trigger] surface.capabilities[k]).id != capability;
        assert forall|k: int|
            0 <= k < surface.capabilities.len() && (#[trigger] surface.capabilities[k]).id
                == capability implies k == at by {
            if k < at {
                assert(surface.capabilities[k].id != surface.capabilities[at].id);
            } else if k > at {
                assert(surface.capabilities[at].id != surface.capabilities[k].id);
            }
        }
    }
}

/// A capability that the registry publishes may be approved for good exactly if it is
/// not denied by default, whatever else is known. Everything else is decided by the
/// surface, the outbound target set first by the policy; what can be decided by neither
/// is unavailable, and an action without a capability is not supported.
pub proof fn law_persistent_approval_asks_registry_then_policy_then_surface(
    registry: ExtensionRegistryView,
    outbound_target_set: Seq<char>,
    gate: ApprovalGateRecordView,
    policy: PolicyAnswerView,
    surface: SurfaceAnswerView,
    capability: Seq<char>,
)
    ensures
        ({
            let step = persistent_step(registry, outbound_target_set, gate, policy, surface);
            let named = gate.action == (HostActionView::Dispatch { capability }) || gate.action == (
            HostActionView::SpawnCapability { capability });
            let published = registry.capability(capability);
            let outbound = capability == outbound_target_set;
            let open = named && published is None;
            let by_surface = open && (!outbound || policy is MissingGrant);
            &&& gate.action is Other ==> step == PersistentStep::Unsupported
            &&& named && published is Some && published->0.default_permission
                != PermissionMode::Deny ==> step == PersistentStep::Allowed
            &&& named && published is Some && published->0.default_permission
                == PermissionMode::Deny ==> step == PersistentStep::Refused
            &&& open && outbound && policy is Unasked ==> step == PersistentStep::AskPolicy
            &&& open && outbound && policy is Granted ==> step == PersistentStep::Allowed
            &&& open && outbound && policy is Failed ==> step == PersistentStep::Unavailable
            &&& by_surface && surface is Unasked ==> step == PersistentStep::AskSurface
            &&& by_surface && surface is Unavailable ==> step == PersistentStep::Unavailable
        }),
{
}

/// A step gives a verdict exactly if it asks for nothing: success where the approval is
/// allowed, and else the rejection that says why.
pub proof fn law_verdict_is_that_of_the_step(step: PersistentStep)
    ensures
        verdict_of(step) is None <==> step == PersistentStep::AskPolicy || step
            == PersistentStep::AskSurface,
        verdict_of(step) matches Some(verdict) ==> (verdict is Ok <==> step
            == PersistentStep::Allowed),
        step == PersistentStep::Unsupported ==> verdict_of(step)->0->Err_0
            == ApprovalInteractionRejectionKind::UnsupportedAction,
        step == PersistentStep::Unavailable ==> verdict_of(step)->0->Err_0
            == ApprovalInteractionRejectionKind::LeaseTermsUnavailable,
        step == PersistentStep::Refused ==> verdict_of(step)->0->Err_0
            == ApprovalInteractionRejectionKind::AlwaysAllowUnsupported,
{
}

/// A one-shot lease is issued by the host for a single invocation, and keeps every
/// other term of the grant.
pub proof fn law_one_shot_lease_keeps_the_other_terms(terms: GrantConstraintsView)
    ensures
        one_shot(terms).issued_by == PrincipalView::HostRuntime,
        one_shot(terms).constraints.max_invocations == Some(1u64),
        one_shot(terms).constraints.allowed_effects == terms.allowed_effects,
        one_shot(terms).constraints.mounts == terms.mounts,
        one_shot(terms).constraints.network == terms.network,
        one_shot(terms).constraints.secrets == terms.secrets,
        one_shot(terms).constraints.resource_ceiling == terms.resource_ceiling,
        one_shot(terms).constraints.expires_at == terms.expires_at,
{
}

/// A dispatch is leased on the policy's own terms where the policy grants it, and not at
/// all where the policy failed. Where the policy does not know the capability, an
/// extension is leased what its surface grants, once; the surface is asked before
/// discovery, and nobody but an extension is asked for at all.
pub proof fn law_dispatch_is_leased_by_policy_then_surface(
    gate: ApprovalGateRecordView,
    answers: LeaseAnswersView,
    capability: Seq<char>,
)
    requires
        gate.action == (HostActionView::Dispatch { capability }),
    ensures
        ({
            let step = lease_step(gate, answers);
            let unavailable = LeaseStepView::Rejected {
                kind: ApprovalInteractionRejectionKind::LeaseTermsUnavailable,
            };
            let unknown = answers.policy is MissingGrant;
            let extension = gate.requested_by is Extension;
            &&& answers.policy is Unasked ==> step is AskPolicy
            &&& answers.policy is Failed ==> step == unavailable
            &&& answers.policy matches PolicyAnswerView::Granted { approval } ==> step == (
            LeaseStepView::Granted { approval })
            &&& unknown && !extension ==> step == unavailable
            &&& unknown && extension && answers.surface is Unasked ==> step is AskSurface
            &&& unknown && extension && answers.surface is Unavailable ==> step == unavailable
            &&& answers.surface matches SurfaceAnswerView::Known { surface } ==> {
                let found = grant_of(surface.grants, capability);
                &&& unknown && extension && found is Some ==> step == (LeaseStepView::Granted {
                    approval: one_shot(found->0.constraints),
                })
                &&& unknown && extension && found is None && answers.discovered is Unasked
                    ==> step is AskDiscovered
            }
        }),
{
}

/// A spawn by an extension is decided by the extension surface first: what the surface
/// grants with the effect of spawning is leased once, what it grants without it is
/// refused. What the surface does not grant, and a spawn by anyone else, is leased on the
/// policy's own terms.
pub proof fn law_spawn_is_leased_by_surface_then_policy(
    gate: ApprovalGateRecordView,
    answers: LeaseAnswersView,
    capability: Seq<char>,
)
    requires
        gate.action == (HostActionView::SpawnCapability { capability }),
    ensures
        ({
            let step = lease_step(gate, answers);
            let unavailable = LeaseStepView::Rejected {
                kind: ApprovalInteractionRejectionKind::LeaseTermsUnavailable,
            };
            let extension = gate.requested_by is Extension;
            let passed = !extension || (answers.first_surface matches SurfaceAnswerView::Known {
                surface,
            } && grant_of(surface.grants, capability) is None);
            &&& extension && answers.first_surface is Unasked ==> step is AskFirstSurface
            &&& extension && answers.first_surface is Unavailable ==> step == unavailable
            &&& answers.first_surface matches SurfaceAnswerView::Known { surface } ==> {
                let found = grant_of(surface.grants, capability);
                &&& extension && found is Some && found->0.constraints.allowed_effects.contains(
                    EffectKind::SpawnProcess,
                ) ==> step == (LeaseStepView::Granted {
                    approval: one_shot(found->0.constraints),
                })
                &&& extension && found is Some && !found->0.constraints.allowed_effects.contains(
                    EffectKind::SpawnProcess,
                ) ==> step == unavailable
            }
            &&& passed && answers.policy is Unasked ==> step is AskPolicy
            &&& passed && answers.policy is Failed ==> step == unavailable
            &&& answers.policy matches PolicyAnswerView::Granted { approval } ==> (passed
                ==> step == (LeaseStepView::Granted { approval }))
            &&& passed && answers.policy is MissingGrant && !extension ==> step == unavailable
        }),
{
}

/// An action without a capability is never leased.
pub proof fn law_other_actions_are_not_leased(
    gate: ApprovalGateRecordView,
    answers: LeaseAnswersView,
)
    requires
        gate.action is Other,
    ensures
        lease_step(gate, answers) == (LeaseStepView::Rejected {
            kind: ApprovalInteractionRejectionKind::UnsupportedAction,
        }),
{
}

/// Discovery answers for an extension that asks in the scope of a hire with an overlay
/// attached: with the ambient grants of what was discovered, made to that very extension.
/// Else it answers that there is none.
pub proof fn law_discovery_answers_an_extension_of_a_hire(
    gate: ApprovalGateRecordView,
    source: DiscoveredCapabilityGrantSource,
    discovered: Seq<CapabilityDescriptorView>,
    now: i128,
)
    ensures
        ({
            let answer = discovered_for(gate, source, discovered, now);
            let hired = source.has_overlay && gate.resource_scope.agent_id is Some;
            &&& answer is Known
            &&& gate.requested_by matches PrincipalView::Extension(grantee) ==> (hired
                ==> answer->grants == ambient_grants(discovered, grantee, now))
            &&& !hired || !(gate.requested_by is Extension) ==> answer->grants.len() == 0
        }),
{
}

} // verus!
