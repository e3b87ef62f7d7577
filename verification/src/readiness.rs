//! Readiness snapshots for operators.

use vstd::prelude::*;

verus! {

/// How the host is composed.
#[derive(Debug, Clone, Copy, PartialEq, Eq, Structural)]
pub enum RebornCompositionProfile {
    Disabled,
    LocalDev,
    LocalDevYolo,
    HostedSingleTenant,
    HostedSingleTenantVolume,
    Production,
    MigrationDryRun,
}

impl RebornCompositionProfile {
    /// Whether the profile has to be wired as production is.
    ///
    /// The host defines its profiles and which of them this is. That it is
    /// production and the dry run of a migration to it, and no other, is this
    /// library's reading.
    pub open spec fn production_shaped(self) -> bool {
        self == RebornCompositionProfile::Production || self
            == RebornCompositionProfile::MigrationDryRun
    }

    /// Whether the profile has to be wired as production is.
    pub fn requires_production_shape(self) -> (r: bool)
        ensures
            r == self.production_shaped(),
    {
        match self {
            RebornCompositionProfile::Production => true,
            RebornCompositionProfile::MigrationDryRun => true,
            _ => false,
        }
    }
}

/// How ready the host is.
#[derive(Debug, Clone, Copy, PartialEq, Eq, Structural)]
pub enum RebornReadinessState {
    Disabled,
    DevOnly,
    ProductionValidated,
    MigrationDryRunValidated,
}

impl Default for RebornReadinessState {
    /// Disabled.
    fn default() -> (r: Self)
        ensures
            r == RebornReadinessState::Disabled,
    {
        RebornReadinessState::Disabled
    }
}

/// Which facades are ready.
#[derive(Debug, Clone, Copy, PartialEq, Eq, Structural)]
pub struct RebornFacadeReadiness {
    pub host_runtime: bool,
    pub turn_coordinator: bool,
    pub product_auth: bool,
}

impl Default for RebornFacadeReadiness {
    /// Nothing is ready.
    fn default() -> (r: Self)
        ensures
            r == (RebornFacadeReadiness { host_runtime: false, turn_coordinator: false, product_auth: false }),
    {
        RebornFacadeReadiness { host_runtime: false, turn_coordinator: false, product_auth: false }
    }
}

/// Which workers are ready.
#[derive(Debug, Clone, Copy, PartialEq, Eq, Structural)]
pub struct RebornWorkerReadiness {
    pub turn_runner: bool,
    pub trigger_poller: bool,
}

impl Default for RebornWorkerReadiness {
    /// Nothing is ready.
    fn default() -> (r: Self)
        ensures
            r == (RebornWorkerReadiness { turn_runner: false, trigger_poller: false }),
    {
        RebornWorkerReadiness { turn_runner: false, trigger_poller: false }
    }
}

/// How grave a diagnostic is.
#[derive(Debug, Clone, Copy, PartialEq, Eq, Structural)]
pub enum RebornReadinessDiagnosticStatus {
    Info,
    Warning,
    Blocking,
    Unknown,
}

/// What a diagnostic complains of.
#[derive(Debug, Clone, Copy, PartialEq, Eq, Structural)]
pub enum RebornReadinessDiagnosticReason {
    Disabled,
    DevOnlyProfile,
    Missing,
    LocalOnly,
    Unverified,
    Unsupported,
    Unknown,
}

/// Stable operator-facing component names.
#[derive(Debug, Clone, Copy, PartialEq, Eq, Structural)]
pub enum RebornReadinessDiagnosticComponent {
    CompositionProfile,
    RuntimeBackend,
    RuntimePolicy,
    TrustPolicy,
    Filesystem,
    ResourceGovernor,
    ProcessStore,
    ProcessResultStore,
    RunState,
    ApprovalRequests,
    CapabilityLeases,
    EventSink,
    AuditSink,
    SecretStore,
    CredentialAccountStore,
    CredentialSessionStore,
    RuntimeHttpEgress,
    RuntimeProcessPort,
    WasmCredentialProvider,
    ScriptRuntime,
    McpRuntime,
    WasmRuntime,
    FirstPartyRuntime,
    TurnState,
    RunProfileResolver,
    TurnRunWakeNotifier,
    Unknown,
}

/// One thing an operator should know.
#[derive(Debug, Clone, Copy, PartialEq, Eq, Structural)]
pub struct RebornReadinessDiagnostic {
    pub profile: RebornCompositionProfile,
    pub component: RebornReadinessDiagnosticComponent,
    pub reason: RebornReadinessDiagnosticReason,
    pub status: RebornReadinessDiagnosticStatus,
    /// Whether this keeps production traffic from being exposed.
    pub blocks_production: bool,
}

impl DeepView for RebornReadinessDiagnostic {
    type V = RebornReadinessDiagnostic;

    open spec fn deep_view(&self) -> RebornReadinessDiagnostic {
        *self
    }
}

/// A diagnostic that blocks production.
pub open spec fn blocking(
    profile: RebornCompositionProfile,
    component: RebornReadinessDiagnosticComponent,
    reason: RebornReadinessDiagnosticReason,
) -> RebornReadinessDiagnostic {
    RebornReadinessDiagnostic {
        profile,
        component,
        reason,
        status: RebornReadinessDiagnosticStatus::Blocking,
        blocks_production: true,
    }
}

impl RebornReadinessDiagnostic {
    /// The host is switched off.
    pub fn disabled() -> (r: Self)
        ensures
            r == blocking(
                RebornCompositionProfile::Disabled,
                RebornReadinessDiagnosticComponent::CompositionProfile,
                RebornReadinessDiagnosticReason::Disabled,
            ),
    {
        RebornReadinessDiagnostic {
            profile: RebornCompositionProfile::Disabled,
            component: RebornReadinessDiagnosticComponent::CompositionProfile,
            reason: RebornReadinessDiagnosticReason::Disabled,
            status: RebornReadinessDiagnosticStatus::Blocking,
            blocks_production: true,
        }
    }

    /// The host runs for local development.
    pub fn local_dev() -> (r: Self)
        ensures
            r == blocking(
                RebornCompositionProfile::LocalDev,
                RebornReadinessDiagnosticComponent::CompositionProfile,
                RebornReadinessDiagnosticReason::DevOnlyProfile,
            ),
    {
        Self::dev_only_profile(RebornCompositionProfile::LocalDev)
    }

    /// The host runs for local development without guards.
    pub fn local_dev_yolo() -> (r: Self)
        ensures
            r == blocking(
                RebornCompositionProfile::LocalDevYolo,
                RebornReadinessDiagnosticComponent::CompositionProfile,
                RebornReadinessDiagnosticReason::DevOnlyProfile,
            ),
    {
        Self::dev_only_profile(RebornCompositionProfile::LocalDevYolo)
    }

    fn dev_only_profile(profile: RebornCompositionProfile) -> (r: Self)
        ensures
            r == blocking(
                profile,
                RebornReadinessDiagnosticComponent::CompositionProfile,
                RebornReadinessDiagnosticReason::DevOnlyProfile,
            ),
    {
        RebornReadinessDiagnostic {
            profile,
            component: RebornReadinessDiagnosticComponent::CompositionProfile,
            reason: RebornReadinessDiagnosticReason::DevOnlyProfile,
            status: RebornReadinessDiagnosticStatus::Blocking,
            blocks_production: true,
        }
    }

    /// A component of a production-shaped profile is not ready.
    pub fn production_blocker(
        profile: RebornCompositionProfile,
        component: RebornReadinessDiagnosticComponent,
        reason: RebornReadinessDiagnosticReason,
    ) -> (r: Self)
        requires
            profile.production_shaped(),
        ensures
            r == blocking(profile, component, reason),
    {
        RebornReadinessDiagnostic {
            profile,
            component,
            reason,
            status: RebornReadinessDiagnosticStatus::Blocking,
            blocks_production: true,
        }
    }
}

/// A readiness snapshot.
#[derive(Debug, PartialEq, Eq)]
pub struct RebornReadiness {
    pub profile: RebornCompositionProfile,
    pub state: RebornReadinessState,
    pub facades: RebornFacadeReadiness,
    pub workers: RebornWorkerReadiness,
    pub diagnostics: Vec<RebornReadinessDiagnostic>,
}

/// The mathematical value of a [`RebornReadiness`].
#[verifier::ext_equal]
pub struct RebornReadinessView {
    pub profile: RebornCompositionProfile,
    pub state: RebornReadinessState,
    pub facades: RebornFacadeReadiness,
    pub workers: RebornWorkerReadiness,
    pub diagnostics: Seq<RebornReadinessDiagnostic>,
}

impl View for RebornReadiness {
    type V = RebornReadinessView;

    open spec fn view(&self) -> RebornReadinessView {
        RebornReadinessView {
            profile: self.profile,
            state: self.state,
            facades: self.facades,
            workers: self.workers,
            diagnostics: self.diagnostics@,
        }
    }
}

impl DeepView for RebornReadiness {
    type V = RebornReadinessView;

    open spec fn deep_view(&self) -> RebornReadinessView {
        self@
    }
}

impl Clone for RebornReadiness {
    fn clone(&self) -> (r: Self)
        ensures
            r@ == self@,
    {
        let r = RebornReadiness {
            profile: self.profile,
            state: self.state,
            facades: self.facades,
            workers: self.workers,
            diagnostics: self.diagnostics.clone(),
        };
        assert(r.diagnostics@ =~= self.diagnostics@);
        r
    }
}

/// The snapshot of a host that is switched off.
pub open spec fn disabled_snapshot() -> RebornReadinessView {
    RebornReadinessView {
        profile: RebornCompositionProfile::Disabled,
        state: RebornReadinessState::Disabled,
        facades: RebornFacadeReadiness {
            host_runtime: false,
            turn_coordinator: false,
            product_auth: false,
        },
        workers: RebornWorkerReadiness { turn_runner: false, trigger_poller: false },
        diagnostics: seq![
            blocking(
                RebornCompositionProfile::Disabled,
                RebornReadinessDiagnosticComponent::CompositionProfile,
                RebornReadinessDiagnosticReason::Disabled,
            ),
        ],
    }
}

impl RebornReadiness {
    /// The snapshot of a host that is switched off, with its diagnostic.
    pub fn disabled() -> (r: Self)
        ensures
            r@ == disabled_snapshot(),
    {
        let mut diagnostics: Vec<RebornReadinessDiagnostic> = Vec::new();
        diagnostics.push(RebornReadinessDiagnostic::disabled());
        let snapshot = RebornReadiness {
            profile: RebornCompositionProfile::Disabled,
            state: RebornReadinessState::Disabled,
            facades: RebornFacadeReadiness::default(),
            workers: RebornWorkerReadiness::default(),
            diagnostics,
        };
        assert(snapshot@.diagnostics =~= disabled_snapshot().diagnostics);
        snapshot
    }
}

impl Default for RebornReadiness {
    /// The snapshot of a host that is switched off.
    fn default() -> (r: Self)
        ensures
            r@ == disabled_snapshot(),
    {
        RebornReadiness::disabled()
    }
}

/// Production and the dry run of a migration to it are wired as production is, and no
/// other profile.
pub proof fn law_production_and_its_dry_run_are_production_shaped(
    profile: RebornCompositionProfile,
)
    ensures
        profile.production_shaped() <==> profile == RebornCompositionProfile::Production || profile
            == RebornCompositionProfile::MigrationDryRun,
{
}

/// A blocking diagnostic blocks production, and names the profile, the component and the
/// reason that it is made for.
pub proof fn law_blocking_diagnostic_names_what_it_blocks(
    profile: RebornCompositionProfile,
    component: RebornReadinessDiagnosticComponent,
    reason: RebornReadinessDiagnosticReason,
)
    ensures
        blocking(profile, component, reason).blocks_production,
        blocking(profile, component, reason).status == RebornReadinessDiagnosticStatus::Blocking,
        blocking(profile, component, reason).profile == profile,
        blocking(profile, component, reason).component == component,
        blocking(profile, component, reason).reason == reason,
{
}

/// A host that is switched off offers nothing, runs nothing, and says that it is disabled
/// in one diagnostic that blocks production.
pub proof fn law_disabled_host_offers_nothing()
    ensures
        disabled_snapshot().profile == RebornCompositionProfile::Disabled,
        disabled_snapshot().state == RebornReadinessState::Disabled,
        !disabled_snapshot().facades.host_runtime,
        !disabled_snapshot().facades.turn_coordinator,
        !disabled_snapshot().facades.product_auth,
        !disabled_snapshot().workers.turn_runner,
        !disabled_snapshot().workers.trigger_poller,
        disabled_snapshot().diagnostics.len() == 1,
        disabled_snapshot().diagnostics[0].blocks_production,
        disabled_snapshot().diagnostics[0].profile == RebornCompositionProfile::Disabled,
        disabled_snapshot().diagnostics[0].component
            == RebornReadinessDiagnosticComponent::CompositionProfile,
        disabled_snapshot().diagnostics[0].reason == RebornReadinessDiagnosticReason::Disabled,
{
}

} // verus!
