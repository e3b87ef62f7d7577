use ironclaw::capability::{
    NetworkPolicy, NetworkScheme, NetworkTargetPattern, RuntimeCredentialInjection,
    RuntimeCredentialSource, RuntimeCredentialTarget, RuntimeKind, TrustClass,
};
use ironclaw::egress::host_port::{
    check_caller_injections, EgressAnswers, EgressStep, HostRuntimeHttpEgressPort,
};
use ironclaw::egress::{
    staged_secret_handles, CapabilityObligationPhase, HostInitiatedInvokeContext,
    HostRuntimeCredentialMaterial,
    HostRuntimeHttpEgressRequest, Obligation, RuntimeHttpEgressError, RuntimeHttpEgressRequest,
    RuntimeSecretMaterialStager, RuntimeSecretStageError,
};
use ironclaw::scope::ResourceScope;

fn scope(user: &str) -> ResourceScope {
    ResourceScope {
        tenant_id: "default".to_string(),
        user_id: user.to_string(),
        agent_id: None,
        project_id: None,
        mission_id: None,
        thread_id: None,
        invocation_id: 11,
    }
}

fn target() -> RuntimeCredentialTarget {
    RuntimeCredentialTarget::Header {
        name: "authorization".to_string(),
        prefix: Some("Bearer ".to_string()),
    }
}

fn injection(handle: &str, capability_id: &str) -> RuntimeCredentialInjection {
    RuntimeCredentialInjection {
        handle: handle.to_string(),
        source: RuntimeCredentialSource::StagedObligation {
            capability_id: capability_id.to_string(),
        },
        target: target(),
        required: true,
    }
}

fn host_request() -> HostRuntimeHttpEgressRequest {
    HostRuntimeHttpEgressRequest {
        extension_id: "test_extension".to_string(),
        trust: TrustClass::System,
        request: RuntimeHttpEgressRequest {
            runtime: RuntimeKind::FirstParty,
            scope: scope("user:test"),
            capability_id: "test.host_http".to_string(),
            method: "GET".to_string(),
            url: "https://api.example.test/v1".to_string(),
            headers: Vec::new(),
            body: Vec::new(),
            network_policy: NetworkPolicy {
                allowed_targets: vec![NetworkTargetPattern {
                    scheme: Some(NetworkScheme::Https),
                    host_pattern: "api.example.test".to_string(),
                    port: None,
                }],
                deny_private_ip_ranges: true,
                max_egress_bytes: Some(1024),
            },
            credential_injections: Vec::new(),
            response_body_limit: None,
            timeout_ms: None,
        },
        credentials: Vec::new(),
    }
}

fn material(handle: &str) -> HostRuntimeCredentialMaterial {
    HostRuntimeCredentialMaterial {
        handle: handle.to_string(),
        target: target(),
        required: true,
    }
}

fn port() -> HostRuntimeHttpEgressPort {
    HostRuntimeHttpEgressPort::new(RuntimeSecretMaterialStager::new())
}

fn network_failure() -> RuntimeHttpEgressError {
    RuntimeHttpEgressError::Network {
        reason: "network_error".to_string(),
        request_bytes: 17,
        response_bytes: 0,
    }
}

#[test]
fn host_runtime_http_egress_rejects_caller_provided_credential_injections() {
    let mut request = host_request();
    request
        .request
        .credential_injections
        .push(injection("host-held-token", "test.host_http"));

    let (result, sent) = port().execute(&request, Ok(()), Ok(()), &Vec::new(), Ok(200u16), true);

    assert_eq!(
        result,
        Err(RuntimeHttpEgressError::Credential {
            reason:
                "host-mediated HTTP egress does not accept caller-provided credential injections"
                    .to_string()
        })
    );
    assert!(sent.is_none());
    assert!(check_caller_injections(&request).is_err());
    assert!(check_caller_injections(&host_request()).is_ok());
}

#[test]
fn host_runtime_http_egress_maps_network_policy_denial_to_request_error() {
    let (result, sent) = port().execute(
        &host_request(),
        Ok(()),
        Err("network".to_string()),
        &Vec::new(),
        Ok(200u16),
        true,
    );

    assert_eq!(
        result,
        Err(RuntimeHttpEgressError::Request {
            reason: "host egress obligations were not authorized: network".to_string(),
            request_bytes: 0,
            response_bytes: 0
        })
    );
    assert!(sent.is_none());
}

#[test]
fn an_invalid_context_is_a_credential_error() {
    let (result, _) = port().execute(
        &host_request(),
        Err("no tenant".to_string()),
        Ok(()),
        &Vec::new(),
        Ok(200u16),
        true,
    );
    assert_eq!(
        result,
        Err(RuntimeHttpEgressError::Credential {
            reason: "invalid host HTTP egress context: no tenant".to_string()
        })
    );
}

#[test]
fn host_runtime_http_egress_discards_staged_secret_after_delegate_failure() {
    let mut port = port();
    let mut request = host_request();
    request.credentials.push(material("host-held-token"));

    let failed: Result<u16, RuntimeHttpEgressError> = Err(network_failure());
    let (result, sent) = port.execute(&request, Ok(()), Ok(()), &vec![true], failed, true);

    assert_eq!(result, Err(network_failure()));
    let sent = sent.expect("the request was sent");
    assert_eq!(
        sent.credential_injections,
        vec![injection("host-held-token", "test.host_http")]
    );
    assert!(
        !port.secret_stager.is_staged(
            &scope("user:test"),
            &"test.host_http".to_string(),
            &"host-held-token".to_string()
        ),
        "host-staged material should be discarded after delegate failure"
    );
    let again = port.execute(&host_request(), Ok(()), Ok(()), &Vec::new(), Ok(200u16), true);
    assert_eq!(again.0, Ok(200));
}

#[test]
fn a_refused_secret_stops_the_request() {
    let mut port = port();
    let mut request = host_request();
    request.credentials.push(material("one"));
    request.credentials.push(material("two"));
    let (result, sent) = port.execute(
        &request,
        Ok(()),
        Ok(()),
        &vec![true, false],
        Ok(200u16),
        true,
    );
    assert_eq!(
        result,
        Err(RuntimeHttpEgressError::Credential {
            reason: "host credential material could not be staged".to_string()
        })
    );
    assert!(sent.is_none());
}

#[test]
fn the_stager_refuses_what_the_store_refuses() {
    let mut stager = RuntimeSecretMaterialStager::new();
    let capability = "test.host_http".to_string();
    let handle = "h".to_string();
    assert_eq!(
        stager.stage_secret_material_once(&scope("a"), &capability, &handle, false),
        Err(RuntimeSecretStageError::Backend)
    );
    assert_eq!(
        stager.stage_secret_material_once(&scope("a"), &capability, &handle, true),
        Ok(())
    );
    assert!(stager.is_staged(&scope("a"), &capability, &handle));
    assert!(!stager.is_staged(&scope("b"), &capability, &handle));
    assert_eq!(
        stager.stage_secret_material_once(&scope("b"), &capability, &handle, true),
        Ok(())
    );
    stager.discard_secret_material_for_capability(&scope("a"), &capability, false);
    assert!(stager.is_staged(&scope("a"), &capability, &handle));
    stager.discard_secret_material_for_capability(&scope("a"), &capability, true);
    assert!(!stager.is_staged(&scope("a"), &capability, &handle));
    assert!(stager.is_staged(&scope("b"), &capability, &handle));
}

#[test]
fn the_policy_is_the_only_obligation_of_a_host_request() {
    let asked = port().authorize_network_egress(&host_request(), 77);
    assert_eq!(asked.phase, CapabilityObligationPhase::Invoke);
    assert_eq!(asked.capability_id, "test.host_http");
    assert_eq!(asked.estimate.network_egress_bytes, Some(1024));
    assert_eq!(asked.obligations.len(), 1);
    assert!(matches!(asked.obligations[0], Obligation::ApplyNetworkPolicy { .. }));
    assert_eq!(asked.context.correlation_id, 77);
    assert_eq!(asked.context.extension_id, "test_extension");
    assert_eq!(asked.context.trust, TrustClass::System);
    assert!(asked.context.grants.is_empty());
    assert_eq!(asked.context.resource_scope, scope("user:test"));
}

#[test]
fn host_initiated_requests_lease_each_secret_once() {
    let mut request = host_request().request;
    request.credential_injections = vec![
        injection("a", "test.host_http"),
        injection("b", "other.capability"),
        injection("a", "test.host_http"),
        injection("c", "test.host_http"),
    ];
    assert_eq!(staged_secret_handles(&request), vec!["a".to_string(), "c".to_string()]);
    let egress =
        port().into_host_initiated_egress("notion".to_string(), TrustClass::UserTrusted);
    let asked = egress.obligations(&request, 1);
    assert_eq!(asked.obligations.len(), 3);
    assert_eq!(
        asked.obligations[2],
        Obligation::InjectSecretOnce {
            handle: "c".to_string()
        }
    );
    let mut known = EgressAnswers::none();
    match egress.next_step(&request, &known, 1) {
        EgressStep::CheckContext { asked: checked } => assert_eq!(checked, asked),
        other => panic!("expected a context check, got {other:?}"),
    }
    known.context_check = Some(Ok(()));
    assert!(matches!(egress.next_step(&request, &known, 1), EgressStep::Satisfy { .. }));
    known.satisfied = Some(Ok(()));
    match egress.next_step(&request, &known, 1) {
        EgressStep::Send { request: sent } => assert_eq!(sent, request),
        other => panic!("expected the request, got {other:?}"),
    }
    known.answered = true;
    assert!(matches!(egress.next_step(&request, &known, 1), EgressStep::Finish));
    known.answered = false;
    known.satisfied = Some(Err("no".to_string()));
    assert!(matches!(egress.next_step(&request, &known, 1), EgressStep::Finish));
    assert_eq!(egress.execute(Ok(()), Ok(()), Ok(1u8)), Ok(1));
    assert!(egress.execute(Ok(()), Err("no".to_string()), Ok(1u8)).is_err());
}

#[test]
fn the_steps_of_a_request_come_in_order() {
    let port = port();
    let mut request = host_request();
    request.credentials = vec![material("one"), material("two")];
    let mut known = EgressAnswers::none();

    match port.next_step(&request, &known, 5) {
        EgressStep::CheckContext { asked } => {
            assert_eq!(asked, port.authorize_network_egress(&request, 5))
        }
        other => panic!("expected a context check, got {other:?}"),
    }
    known.context_check = Some(Ok(()));
    assert!(matches!(port.next_step(&request, &known, 5), EgressStep::Satisfy { .. }));
    known.satisfied = Some(Ok(()));
    assert!(matches!(port.next_step(&request, &known, 5), EgressStep::Store { index: 0 }));
    known.stored.push(true);
    assert!(matches!(port.next_step(&request, &known, 5), EgressStep::Store { index: 1 }));
    known.stored.push(true);
    match port.next_step(&request, &known, 5) {
        EgressStep::Send { request } => assert_eq!(
            request.credential_injections,
            vec![
                injection("one", "test.host_http"),
                injection("two", "test.host_http")
            ]
        ),
        other => panic!("expected the request, got {other:?}"),
    }
    known.answered = true;
    assert!(matches!(port.next_step(&request, &known, 5), EgressStep::Discard));
    known.discard_asked = true;
    assert!(matches!(port.next_step(&request, &known, 5), EgressStep::Finish));
}

#[test]
fn a_refused_request_is_over_at_once() {
    let port = port();
    let mut request = host_request();
    request.credentials = vec![material("one")];
    let mut known = EgressAnswers::none();
    known.context_check = Some(Err("no tenant".to_string()));
    assert!(matches!(port.next_step(&request, &known, 5), EgressStep::Finish));
    known.context_check = Some(Ok(()));
    known.satisfied = Some(Err("network".to_string()));
    assert!(matches!(port.next_step(&request, &known, 5), EgressStep::Finish));
    known.satisfied = Some(Ok(()));
    known.stored.push(false);
    assert!(matches!(port.next_step(&request, &known, 5), EgressStep::Discard));
    request
        .request
        .credential_injections
        .push(injection("caller", "test.host_http"));
    assert!(matches!(
        port.next_step(&request, &EgressAnswers::none(), 5),
        EgressStep::Finish
    ));
}

#[test]
fn obligations_are_the_policy_and_one_lease_for_each_secret() {
    let request = host_request().request;
    let asked = port().stage_network_policy_and_secret_injections(
        HostInitiatedInvokeContext {
            extension_id: "notion".to_string(),
            trust: TrustClass::UserTrusted,
            runtime: RuntimeKind::Mcp,
            scope: &request.scope,
            capability_id: &request.capability_id,
        },
        request.network_policy.clone(),
        &vec!["a".to_string(), "b".to_string()],
        3,
    );
    assert_eq!(
        asked.obligations,
        vec![
            Obligation::ApplyNetworkPolicy {
                policy: request.network_policy.clone()
            },
            Obligation::InjectSecretOnce {
                handle: "a".to_string()
            },
            Obligation::InjectSecretOnce {
                handle: "b".to_string()
            },
        ]
    );
    assert_eq!(asked.context.runtime, RuntimeKind::Mcp);
    assert_eq!(asked.estimate.network_egress_bytes, Some(1024));
    assert_eq!(asked.estimate.limits, Vec::new());
}
