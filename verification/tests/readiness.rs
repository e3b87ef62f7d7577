use ironclaw::readiness::{
    RebornCompositionProfile, RebornFacadeReadiness, RebornReadiness, RebornReadinessDiagnostic,
    RebornReadinessDiagnosticComponent, RebornReadinessDiagnosticReason,
    RebornReadinessDiagnosticStatus, RebornReadinessState, RebornWorkerReadiness,
};

#[test]
fn readiness_default_matches_disabled_snapshot() {
    let readiness = RebornReadiness::default();

    assert_eq!(readiness.profile, RebornCompositionProfile::Disabled);
    assert_eq!(readiness.state, RebornReadinessState::Disabled);
    assert_eq!(readiness.diagnostics.len(), 1);
    assert_eq!(
        readiness.diagnostics[0].reason,
        RebornReadinessDiagnosticReason::Disabled
    );
    assert_eq!(
        readiness.diagnostics[0].status,
        RebornReadinessDiagnosticStatus::Blocking
    );
    assert!(readiness.diagnostics[0].blocks_production);
}

#[test]
fn dev_profiles_block_production() {
    let dev = RebornReadinessDiagnostic::local_dev();
    let yolo = RebornReadinessDiagnostic::local_dev_yolo();
    assert_eq!(dev.profile, RebornCompositionProfile::LocalDev);
    assert_eq!(yolo.profile, RebornCompositionProfile::LocalDevYolo);
    assert_eq!(dev.reason, RebornReadinessDiagnosticReason::DevOnlyProfile);
    assert!(dev.blocks_production && yolo.blocks_production);
}

#[test]
fn production_blocker_keeps_what_it_is_told() {
    assert!(RebornCompositionProfile::Production.requires_production_shape());
    assert!(RebornCompositionProfile::MigrationDryRun.requires_production_shape());
    assert!(!RebornCompositionProfile::LocalDev.requires_production_shape());
    let blocker = RebornReadinessDiagnostic::production_blocker(
        RebornCompositionProfile::Production,
        RebornReadinessDiagnosticComponent::SecretStore,
        RebornReadinessDiagnosticReason::Missing,
    );
    assert_eq!(blocker.component, RebornReadinessDiagnosticComponent::SecretStore);
    assert_eq!(blocker.reason, RebornReadinessDiagnosticReason::Missing);
    assert_eq!(blocker.status, RebornReadinessDiagnosticStatus::Blocking);
    assert!(blocker.blocks_production);
}

#[test]
fn nothing_is_ready_by_default() {
    assert_eq!(RebornReadinessState::default(), RebornReadinessState::Disabled);
    assert_eq!(
        RebornFacadeReadiness::default(),
        RebornFacadeReadiness {
            host_runtime: false,
            turn_coordinator: false,
            product_auth: false
        }
    );
    assert_eq!(
        RebornWorkerReadiness::default(),
        RebornWorkerReadiness {
            turn_runner: false,
            trigger_poller: false
        }
    );
    assert_eq!(RebornReadiness::disabled(), RebornReadiness::default());
}
