//! The port through which the host sends its own requests.

use vstd::prelude::*;

use crate::capability::{
    NetworkPolicy, ResourceEstimate, RuntimeCredentialInjection, RuntimeCredentialInjectionView,
    RuntimeCredentialSource, RuntimeCredentialSourceView, TrustClass,
};
use crate::egress::{
    authorization_of, execution_context_for_host_http_egress, invoke_context_of,
    invoke_request_of, needed_handles, obligation_request_of, obligation_verdict, obligations_of,
    staged_elsewhere, staged_secret_handles, CapabilityObligationPhase, HostInitiatedInvokeContext,
    HostInitiatedInvokeContextView,
    HostRuntimeCredentialMaterial, HostRuntimeCredentialMaterialView,
    HostRuntimeHttpEgressRequest, HostRuntimeHttpEgressRequestView, Obligation,
    ObligationRequest, ObligationRequestView, RuntimeHttpEgressError, RuntimeHttpEgressErrorView,
    RuntimeHttpEgressRequest, RuntimeHttpEgressRequestView, RuntimeSecretMaterialStager,
    StagedSecretView,
};
use crate::ids::{ExtensionId, SecretHandle};
use crate::outcome::outcome;
use crate::scope::ResourceScopeView;

verus! {

/// The injection that stages a credential the host holds.
pub open spec fn host_injection(
    capability_id: Seq<char>,
    credential: HostRuntimeCredentialMaterialView,
) -> RuntimeCredentialInjectionView {
    RuntimeCredentialInjectionView {
        handle: credential.handle,
        source: RuntimeCredentialSourceView::StagedObligation { capability_id },
        target: credential.target,
        required: credential.required,
    }
}

/// One injection for each credential, in order.
pub open spec fn host_injections(
    capability_id: Seq<char>,
    credentials: Seq<HostRuntimeCredentialMaterialView>,
) -> Seq<RuntimeCredentialInjectionView> {
    credentials.map_values(
        |credential: HostRuntimeCredentialMaterialView| host_injection(capability_id, credential),
    )
}

/// The request as it is sent: with an injection for each credential.
pub open spec fn sent_request(request: HostRuntimeHttpEgressRequestView) -> RuntimeHttpEgressRequestView {
    RuntimeHttpEgressRequestView {
        credential_injections: request.request.credential_injections + host_injections(
            request.request.capability_id,
            request.credentials,
        ),
        ..request.request
    }
}

/// How many credentials are stored before the first that the store refuses.
pub open spec fn stored_count(stored: Seq<bool>, wanted: nat) -> nat
    decreases wanted,
{
    if wanted > 0 && stored.len() > 0 && stored[0] {
        1 + stored_count(stored.drop_first(), (wanted - 1) as nat)
    } else {
        0
    }
}

/// The staged secrets of some credentials.
pub open spec fn staged_secrets(
    scope: ResourceScopeView,
    capability_id: Seq<char>,
    credentials: Seq<HostRuntimeCredentialMaterialView>,
) -> Seq<StagedSecretView> {
    credentials.map_values(
        |credential: HostRuntimeCredentialMaterialView|
            StagedSecretView { scope, capability_id, handle: credential.handle },
    )
}

/// The error of a request that brings injections of its own.
pub open spec fn caller_injections_refused() -> RuntimeHttpEgressErrorView {
    RuntimeHttpEgressErrorView::Credential {
        reason:
            "host-mediated HTTP egress does not accept caller-provided credential injections"@,
    }
}

/// The error of a credential that could not be staged.
pub open spec fn staging_refused() -> RuntimeHttpEgressErrorView {
    RuntimeHttpEgressErrorView::Credential {
        reason: "host credential material could not be staged"@,
    }
}

/// Why a request fails before any secret is staged, if it does.
pub open spec fn admission(
    request: HostRuntimeHttpEgressRequestView,
    context_check: Result<(), Seq<char>>,
    satisfied: Result<(), Seq<char>>,
) -> Result<(), RuntimeHttpEgressErrorView> {
    if request.request.credential_injections.len() > 0 {
        Err(caller_injections_refused())
    } else {
        authorization_of(context_check, satisfied)
    }
}

/// Whether a request is sent: it is admitted and every credential is stored.
pub open spec fn is_sent(
    request: HostRuntimeHttpEgressRequestView,
    context_check: Result<(), Seq<char>>,
    satisfied: Result<(), Seq<char>>,
    stored: Seq<bool>,
) -> bool {
    &&& admission(request, context_check, satisfied) is Ok
    &&& stored_count(stored, request.credentials.len()) == request.credentials.len()
}

/// The result of a request. `response` is what sending it gave, if it was sent.
pub open spec fn egress_result<R>(
    request: HostRuntimeHttpEgressRequestView,
    context_check: Result<(), Seq<char>>,
    satisfied: Result<(), Seq<char>>,
    stored: Seq<bool>,
    response: Result<R, RuntimeHttpEgressErrorView>,
) -> Result<R, RuntimeHttpEgressErrorView> {
    match admission(request, context_check, satisfied) {
        Err(error) => Err(error),
        Ok(()) => if is_sent(request, context_check, satisfied, stored) {
            response
        } else {
            Err(staging_refused())
        },
    }
}

/// What is staged after a request: everything staged for its capability call is
/// discarded once it had credentials and was admitted, whatever came of it.
pub open spec fn staged_after(
    staged: Seq<StagedSecretView>,
    request: HostRuntimeHttpEgressRequestView,
    context_check: Result<(), Seq<char>>,
    satisfied: Result<(), Seq<char>>,
    stored: Seq<bool>,
    discarded: bool,
) -> Seq<StagedSecretView> {
    if admission(request, context_check, satisfied) is Err || request.credentials.len() == 0 {
        staged
    } else {
        let count = stored_count(stored, request.credentials.len());
        let during = staged + staged_secrets(
            request.request.scope,
            request.request.capability_id,
            request.credentials.take(count as int),
        );
        if discarded {
            during.filter(
                staged_elsewhere(request.request.scope, request.request.capability_id),
            )
        } else {
            during
        }
    }
}

/// Refuses a request that brings injections of its own.
pub fn check_caller_injections(request: &HostRuntimeHttpEgressRequest) -> (r: Result<
    (),
    RuntimeHttpEgressError,
>)
    ensures
        outcome(r) == (if request@.request.credential_injections.len() > 0 {
            Err::<(), RuntimeHttpEgressErrorView>(caller_injections_refused())
        } else {
            Ok(())
        }),
{
    if request.request.credential_injections.is_empty() {
        Ok(())
    } else {
        Err(
            RuntimeHttpEgressError::Credential {
                reason:
                    "host-mediated HTTP egress does not accept caller-provided credential injections".to_string(),
            },
        )
    }
}

/// The injection that stages a credential the host holds.
fn injection_for(
    request: &RuntimeHttpEgressRequest,
    credential: &HostRuntimeCredentialMaterial,
) -> (r: RuntimeCredentialInjection)
    ensures
        r@ == host_injection(request@.capability_id, credential@),
{
    RuntimeCredentialInjection {
        handle: credential.handle.clone(),
        source: RuntimeCredentialSource::StagedObligation {
            capability_id: request.capability_id.clone(),
        },
        target: credential.target.clone(),
        required: credential.required,
    }
}

/// Stages one credential and adds its injection to the request. `stored` is the
/// answer of the secret store.
pub fn stage_credential(
    stager: &mut RuntimeSecretMaterialStager,
    request: &mut RuntimeHttpEgressRequest,
    credential: &HostRuntimeCredentialMaterial,
    stored: bool,
) -> (r: Result<(), RuntimeHttpEgressError>)
    ensures
        outcome(r) == (if stored {
            Ok::<(), RuntimeHttpEgressErrorView>(())
        } else {
            Err(staging_refused())
        }),
        final(stager)@ == (if stored {
            old(stager)@.push(
                StagedSecretView {
                    scope: old(request)@.scope,
                    capability_id: old(request)@.capability_id,
                    handle: credential@.handle,
                },
            )
        } else {
            old(stager)@
        }),
        final(request)@ == (if stored {
            RuntimeHttpEgressRequestView {
                credential_injections: old(request)@.credential_injections.push(
                    host_injection(old(request)@.capability_id, credential@),
                ),
                ..old(request)@
            }
        } else {
            old(request)@
        }),
{
    match stager.stage_secret_material_once(
        &request.scope,
        &request.capability_id,
        &credential.handle,
        stored,
    ) {
        Err(_) => {
            return Err(
                RuntimeHttpEgressError::Credential {
                    reason: "host credential material could not be staged".to_string(),
                },
            );
        },
        Ok(()) => {},
    }
    let injection = injection_for(request, credential);
    let ghost added = injection@;
    request.credential_injections.push(injection);
    assert(request@.credential_injections =~= old(request)@.credential_injections.push(added));
    Ok(())
}

proof fn lemma_stored_count(stored: Seq<bool>, wanted: nat, at: nat)
    requires
        at <= wanted,
        at <= stored.len(),
        forall|k: int| 0 <= k < at ==> #[trigger] stored[k],
    ensures
        stored_count(stored, wanted) >= at,
        stored_count(stored, wanted) <= wanted,
        at < wanted && (at == stored.len() || !stored[at as int]) ==> stored_count(stored, wanted)
            == at,
    decreases wanted,
{
    if wanted > 0 && stored.len() > 0 && stored[0] {
        let rest = stored.drop_first();
        if at > 0 {
            assert forall|k: int| 0 <= k < at - 1 implies #[trigger] rest[k] by {
                assert(rest[k] == stored[k + 1]);
            }
            if at < stored.len() {
                assert(rest[at - 1] == stored[at as int]);
            }
            lemma_stored_count(rest, (wanted - 1) as nat, (at - 1) as nat);
        } else {
            lemma_stored_count(rest, (wanted - 1) as nat, 0);
        }
    }
}

/// Stages every credential of a request, in order, until the store refuses one.
/// `stored` are the answers of the secret store.
pub fn stage_credentials(
    stager: &mut RuntimeSecretMaterialStager,
    request: &mut RuntimeHttpEgressRequest,
    credentials: &Vec<HostRuntimeCredentialMaterial>,
    stored: &Vec<bool>,
) -> (r: Result<(), RuntimeHttpEgressError>)
    ensures
        ({
            let count = stored_count(stored@, credentials@.len());
            let staged = credentials.deep_view().take(count as int);
            &&& outcome(r) == (if count == credentials@.len() {
                Ok::<(), RuntimeHttpEgressErrorView>(())
            } else {
                Err(staging_refused())
            })
            &&& final(stager)@ == old(stager)@ + staged_secrets(
                old(request)@.scope,
                old(request)@.capability_id,
                staged,
            )
            &&& final(request)@ == (RuntimeHttpEgressRequestView {
                credential_injections: old(request)@.credential_injections + host_injections(
                    old(request)@.capability_id,
                    staged,
                ),
                ..old(request)@
            })
        }),
{
    let ghost views = credentials.deep_view();
    let ghost scope = request@.scope;
    let ghost capability_id = request@.capability_id;
    let mut i: usize = 0;
    assert(stager@ + staged_secrets(scope, capability_id, views.take(0)) =~= stager@);
    assert(request@.credential_injections + host_injections(capability_id, views.take(0))
        =~= request@.credential_injections);
    while i < credentials.len()
        invariant
            views == credentials.deep_view(),
            scope == old(request)@.scope,
            capability_id == old(request)@.capability_id,
            i <= credentials@.len(),
            i <= stored@.len(),
            forall|k: int| 0 <= k < i ==> #[trigger] stored@[k],
            stager@ == old(stager)@ + staged_secrets(scope, capability_id, views.take(i as int)),
            request@ == (RuntimeHttpEgressRequestView {
                credential_injections: old(request)@.credential_injections + host_injections(
                    capability_id,
                    views.take(i as int),
                ),
                ..old(request)@
            }),
        decreases credentials@.len() - i,
    {
        let answer = i < stored.len() && stored[i];
        proof {
            lemma_stored_count(stored@, credentials@.len(), i as nat);
        }
        assert(views[i as int] == credentials@[i as int]@);
        match stage_credential(stager, request, &credentials[i], answer) {
            Err(error) => return Err(error),
            Ok(()) => {},
        }
        proof {
            assert(stager@ =~= old(stager)@ + staged_secrets(
                scope,
                capability_id,
                views.take(i + 1),
            ));
            assert(request@.credential_injections =~= old(request)@.credential_injections
                + host_injections(capability_id, views.take(i + 1)));
        }
        i = i + 1;
    }
    proof {
        lemma_stored_count(stored@, credentials@.len(), i as nat);
        assert(views.take(views.len() as int) =~= views);
    }
    Ok(())
}

/// The mathematical value of a response.
pub open spec fn response_view<R>(response: Result<R, RuntimeHttpEgressError>) -> Result<
    R,
    RuntimeHttpEgressErrorView,
> {
    match response {
        Ok(value) => Ok(value),
        Err(error) => Err(error@),
    }
}

/// What the host has answered so far for one request.
#[derive(Debug)]
pub struct EgressAnswers {
    /// The verdict on the execution context.
    pub context_check: Option<Result<(), String>>,
    /// The verdict of the obligation handler.
    pub satisfied: Option<Result<(), String>>,
    /// Whether the secret store took each credential, in order.
    pub stored: Vec<bool>,
    /// Whether the request was sent and answered.
    pub answered: bool,
    /// Whether the store was asked to discard what is staged.
    pub discard_asked: bool,
}

/// The mathematical value of [`EgressAnswers`].
#[verifier::ext_equal]
pub struct EgressAnswersView {
    pub context_check: Option<Result<(), Seq<char>>>,
    pub satisfied: Option<Result<(), Seq<char>>>,
    pub stored: Seq<bool>,
    pub answered: bool,
    pub discard_asked: bool,
}

/// The mathematical value of an answer that may not have come yet.
pub open spec fn verdict_view(verdict: Option<Result<(), String>>) -> Option<
    Result<(), Seq<char>>,
> {
    match verdict {
        None => None,
        Some(verdict) => Some(outcome(verdict)),
    }
}

impl View for EgressAnswers {
    type V = EgressAnswersView;

    open spec fn view(&self) -> EgressAnswersView {
        EgressAnswersView {
            context_check: verdict_view(self.context_check),
            satisfied: verdict_view(self.satisfied),
            stored: self.stored@,
            answered: self.answered,
            discard_asked: self.discard_asked,
        }
    }
}

impl EgressAnswers {
    /// No answers yet.
    pub fn none() -> (r: Self)
        ensures
            r@ == (EgressAnswersView {
                context_check: None,
                satisfied: None,
                stored: Seq::empty(),
                answered: false,
                discard_asked: false,
            }),
    {
        let stored: Vec<bool> = Vec::new();
        EgressAnswers {
            context_check: None,
            satisfied: None,
            stored,
            answered: false,
            discard_asked: false,
        }
    }
}

/// What the host does next for a request.
#[derive(Debug)]
pub enum EgressStep {
    /// Check the execution context of what the obligation handler would be asked.
    CheckContext { asked: ObligationRequest },
    /// Ask the obligation handler.
    Satisfy { asked: ObligationRequest },
    /// Hand the secret store the material of a credential.
    Store { index: usize },
    /// Send the request.
    Send { request: RuntimeHttpEgressRequest },
    /// Have the secret store discard what is staged for the call.
    Discard,
    /// Nothing is left to do.
    Finish,
}

/// The mathematical value of an [`EgressStep`].
#[verifier::ext_equal]
pub enum EgressStepView {
    CheckContext { asked: ObligationRequestView },
    Satisfy { asked: ObligationRequestView },
    Store { index: nat },
    Send { request: RuntimeHttpEgressRequestView },
    Discard,
    Finish,
}

impl View for EgressStep {
    type V = EgressStepView;

    open spec fn view(&self) -> EgressStepView {
        match self {
            EgressStep::CheckContext { asked } => EgressStepView::CheckContext { asked: asked@ },
            EgressStep::Satisfy { asked } => EgressStepView::Satisfy { asked: asked@ },
            EgressStep::Store { index } => EgressStepView::Store { index: *index as nat },
            EgressStep::Send { request } => EgressStepView::Send { request: request@ },
            EgressStep::Discard => EgressStepView::Discard,
            EgressStep::Finish => EgressStepView::Finish,
        }
    }
}

/// What the host does next for a request: it checks the context, asks the
/// obligation handler, stores one credential after the other until one is
/// refused, sends the request if none was, and has everything it stored
/// discarded. A request with injections of its own, or one that is not
/// authorized, is over at once.
pub open spec fn egress_step_of(
    request: HostRuntimeHttpEgressRequestView,
    known: EgressAnswersView,
    correlation_id: u128,
) -> EgressStepView {
    let asked = obligation_request_of(
        invoke_context_of(request.request, request.extension_id, request.trust),
        request.request.network_policy,
        Seq::empty(),
        correlation_id,
    );
    let wanted = request.credentials.len();
    let count = stored_count(known.stored, wanted);
    if request.request.credential_injections.len() > 0 {
        EgressStepView::Finish
    } else if known.context_check is None {
        EgressStepView::CheckContext { asked }
    } else if known.context_check->0 is Err {
        EgressStepView::Finish
    } else if known.satisfied is None {
        EgressStepView::Satisfy { asked }
    } else if known.satisfied->0 is Err {
        EgressStepView::Finish
    } else if count < wanted && count == known.stored.len() {
        EgressStepView::Store { index: count }
    } else if count == wanted && !known.answered {
        EgressStepView::Send { request: sent_request(request) }
    } else if wanted > 0 && !known.discard_asked {
        EgressStepView::Discard
    } else {
        EgressStepView::Finish
    }
}

/// An answer, or the given one where none has come.
pub open spec fn verdict_or(
    known: Option<Result<(), Seq<char>>>,
    otherwise: Result<(), Seq<char>>,
) -> Result<(), Seq<char>> {
    match known {
        Some(verdict) => verdict,
        None => otherwise,
    }
}

/// How many credentials are stored before the first that the store refuses.
fn count_stored(stored: &Vec<bool>, wanted: usize) -> (r: usize)
    ensures
        r == stored_count(stored@, wanted as nat),
        r <= wanted,
        r <= stored@.len(),
{
    let mut i: usize = 0;
    while i < wanted && i < stored.len() && stored[i]
        invariant
            i <= wanted,
            i <= stored@.len(),
            forall|k: int| 0 <= k < i ==> #[trigger] stored@[k],
        decreases wanted - i,
    {
        i = i + 1;
    }
    proof {
        lemma_stored_count(stored@, wanted as nat, i as nat);
    }
    i
}

/// The request as it is sent.
fn outgoing(request: &HostRuntimeHttpEgressRequest) -> (r: RuntimeHttpEgressRequest)
    ensures
        r@ == sent_request(request@),
{
    let mut r = request.request.clone();
    let ghost views = request.credentials.deep_view();
    let ghost first = r@.credential_injections;
    let ghost capability_id = request@.request.capability_id;
    let mut i: usize = 0;
    assert(first + host_injections(capability_id, views.take(0)) =~= first);
    while i < request.credentials.len()
        invariant
            views == request.credentials.deep_view(),
            first == request@.request.credential_injections,
            capability_id == request@.request.capability_id,
            i <= request.credentials@.len(),
            r@ == (RuntimeHttpEgressRequestView {
                credential_injections: first + host_injections(
                    capability_id,
                    views.take(i as int),
                ),
                ..request@.request
            }),
        decreases request.credentials@.len() - i,
    {
        let ghost before = r@.credential_injections;
        let injection = injection_for(&request.request, &request.credentials[i]);
        let ghost added = injection@;
        assert(views[i as int] == request.credentials@[i as int]@);
        r.credential_injections.push(injection);
        assert(r@.credential_injections =~= before.push(added));
        assert(before.push(added) =~= first + host_injections(capability_id, views.take(i + 1)));
        i = i + 1;
    }
    assert(views.take(views.len() as int) =~= views);
    r
}

/// The port through which the host sends its own requests.
#[derive(Debug)]
pub struct HostRuntimeHttpEgressPort {
    pub secret_stager: RuntimeSecretMaterialStager,
}

impl HostRuntimeHttpEgressPort {
    /// A port over a stager.
    pub fn new(secret_stager: RuntimeSecretMaterialStager) -> (r: Self)
        ensures
            r.secret_stager@ == secret_stager@,
    {
        HostRuntimeHttpEgressPort { secret_stager }
    }

    /// What the obligation handler is asked before a call leaves.
    pub fn stage_invoke_obligations(
        &self,
        context: HostInitiatedInvokeContext<'_>,
        network_egress_bytes: Option<u64>,
        obligations: Vec<Obligation>,
        correlation_id: u128,
    ) -> (r: ObligationRequest)
        ensures
            r@ == invoke_request_of(
                context@,
                network_egress_bytes,
                obligations.deep_view(),
                correlation_id,
            ),
    {
        let mut estimate = ResourceEstimate::default();
        estimate.network_egress_bytes = network_egress_bytes;
        ObligationRequest {
            phase: CapabilityObligationPhase::Invoke,
            context: execution_context_for_host_http_egress(
                context.scope,
                context.extension_id,
                context.runtime,
                context.trust,
                correlation_id,
            ),
            capability_id: context.capability_id.clone(),
            estimate,
            obligations,
        }
    }

    /// What the obligation handler is asked before a call leaves: its network
    /// policy, and one lease for each of the given secrets.
    pub fn stage_network_policy_and_secret_injections(
        &self,
        context: HostInitiatedInvokeContext<'_>,
        policy: NetworkPolicy,
        secret_handles: &Vec<SecretHandle>,
        correlation_id: u128,
    ) -> (r: ObligationRequest)
        ensures
            r@ == obligation_request_of(
                context@,
                policy@,
                secret_handles.deep_view(),
                correlation_id,
            ),
    {
        let max_egress_bytes = policy.max_egress_bytes;
        let ghost asked = policy@;
        let ghost handles = secret_handles.deep_view();
        let mut obligations: Vec<Obligation> = Vec::new();
        obligations.push(Obligation::ApplyNetworkPolicy { policy });
        let mut i: usize = 0;
        assert(obligations.deep_view() =~= obligations_of(asked, handles.take(0)));
        while i < secret_handles.len()
            invariant
                handles == secret_handles.deep_view(),
                i <= secret_handles@.len(),
                obligations.deep_view() == obligations_of(asked, handles.take(i as int)),
            decreases secret_handles@.len() - i,
        {
            let ghost before = obligations.deep_view();
            let obligation = Obligation::InjectSecretOnce { handle: secret_handles[i].clone() };
            let ghost added = obligation@;
            obligations.push(obligation);
            assert(obligations.deep_view() =~= before.push(added));
            assert(before.push(added) =~= obligations_of(asked, handles.take(i + 1)));
            i = i + 1;
        }
        assert(handles.take(handles.len() as int) =~= handles);
        self.stage_invoke_obligations(context, max_egress_bytes, obligations, correlation_id)
    }

    /// What the obligation handler is asked before a request of this port leaves.
    /// Its secrets are staged separately, so the policy is the only obligation.
    pub fn authorize_network_egress(
        &self,
        request: &HostRuntimeHttpEgressRequest,
        correlation_id: u128,
    ) -> (r: ObligationRequest)
        ensures
            r@ == obligation_request_of(
                invoke_context_of(request@.request, request@.extension_id, request@.trust),
                request@.request.network_policy,
                Seq::empty(),
                correlation_id,
            ),
    {
        let none: Vec<SecretHandle> = Vec::new();
        assert(none.deep_view() =~= Seq::empty());
        self.stage_network_policy_and_secret_injections(
            HostInitiatedInvokeContext {
                extension_id: request.extension_id.clone(),
                trust: request.trust,
                runtime: request.request.runtime,
                scope: &request.request.scope,
                capability_id: &request.request.capability_id,
            },
            request.request.network_policy.clone(),
            &none,
            correlation_id,
        )
    }

    /// What the host does next for a request, from its answers so far.
    pub fn next_step(
        &self,
        request: &HostRuntimeHttpEgressRequest,
        known: &EgressAnswers,
        correlation_id: u128,
    ) -> (r: EgressStep)
        ensures
            r@ == egress_step_of(request@, known@, correlation_id),
    {
        if !request.request.credential_injections.is_empty() {
            return EgressStep::Finish;
        }
        match &known.context_check {
            None => {
                let asked = self.authorize_network_egress(request, correlation_id);
                return EgressStep::CheckContext { asked };
            },
            Some(Err(_)) => {
                return EgressStep::Finish;
            },
            Some(Ok(())) => {},
        }
        match &known.satisfied {
            None => {
                let asked = self.authorize_network_egress(request, correlation_id);
                return EgressStep::Satisfy { asked };
            },
            Some(Err(_)) => {
                return EgressStep::Finish;
            },
            Some(Ok(())) => {},
        }
        let wanted = request.credentials.len();
        let count = count_stored(&known.stored, wanted);
        if count < wanted && count == known.stored.len() {
            return EgressStep::Store { index: count };
        }
        if count == wanted && !known.answered {
            return EgressStep::Send { request: outgoing(request) };
        }
        if wanted > 0 && !known.discard_asked {
            return EgressStep::Discard;
        }
        EgressStep::Finish
    }

    /// A sender of requests that the host initiates for one extension.
    pub fn into_host_initiated_egress(self, extension_id: ExtensionId, trust: TrustClass) -> (r:
        HostInitiatedHttpEgress)
        ensures
            r.port.secret_stager@ == self.secret_stager@,
            r.extension_id@ == extension_id@,
            r.trust == trust,
    {
        HostInitiatedHttpEgress { port: self, extension_id, trust }
    }

    /// A whole request, from what the host answers at each act: the check of
    /// the execution context, the obligation handler, the secret store for each
    /// credential, sending the request, and discarding what was staged.
    ///
    /// Also gives the request that was sent, if one was.
    pub fn execute<R>(
        &mut self,
        request: &HostRuntimeHttpEgressRequest,
        context_check: Result<(), String>,
        satisfied: Result<(), String>,
        stored: &Vec<bool>,
        response: Result<R, RuntimeHttpEgressError>,
        discarded: bool,
    ) -> (r: (Result<R, RuntimeHttpEgressError>, Option<RuntimeHttpEgressRequest>))
        ensures
            response_view(r.0) == egress_result(
                request@,
                outcome(context_check),
                outcome(satisfied),
                stored@,
                response_view(response),
            ),
            r.1.deep_view() == (if is_sent(
                request@,
                outcome(context_check),
                outcome(satisfied),
                stored@,
            ) {
                Some(sent_request(request@))
            } else {
                None
            }),
            final(self).secret_stager@ == staged_after(
                old(self).secret_stager@,
                request@,
                outcome(context_check),
                outcome(satisfied),
                stored@,
                discarded,
            ),
    {
        match check_caller_injections(request) {
            Err(error) => return (Err(error), None),
            Ok(()) => {},
        }
        match obligation_verdict(context_check, satisfied) {
            Err(error) => return (Err(error), None),
            Ok(()) => {},
        }
        let mut outgoing = request.request.clone();
        let staged_credentials = !request.credentials.is_empty();
        let ghost before = self.secret_stager@;
        let staging = stage_credentials(
            &mut self.secret_stager,
            &mut outgoing,
            &request.credentials,
            stored,
        );
        proof {
            lemma_stored_count(stored@, request.credentials@.len(), 0);
            let none = staged_secrets(
                request@.request.scope,
                request@.request.capability_id,
                request@.credentials.take(0),
            );
            assert(before + none =~= before);
            assert(request@.credentials.take(request@.credentials.len() as int)
                =~= request@.credentials);
        }
        if staged_credentials {
            self.secret_stager.discard_secret_material_for_capability(
                &request.request.scope,
                &request.request.capability_id,
                discarded,
            );
        }
        match staging {
            Err(error) => (Err(error), None),
            Ok(()) => (response, Some(outgoing)),
        }
    }
}

/// The result of a host-initiated request: the handler's refusal, or what sending
/// it gave.
pub open spec fn initiated_result<R>(
    context_check: Result<(), Seq<char>>,
    satisfied: Result<(), Seq<char>>,
    response: Result<R, RuntimeHttpEgressErrorView>,
) -> Result<R, RuntimeHttpEgressErrorView> {
    match authorization_of(context_check, satisfied) {
        Err(error) => Err(error),
        Ok(()) => response,
    }
}

/// What the host does next for a request that it initiates: it checks the
/// context, asks the obligation handler for the policy and the secrets, and sends
/// the request as it is. One that is not authorized is over at once.
pub open spec fn initiated_step_of(
    request: RuntimeHttpEgressRequestView,
    extension_id: Seq<char>,
    trust: TrustClass,
    known: EgressAnswersView,
    correlation_id: u128,
) -> EgressStepView {
    let asked = obligation_request_of(
        invoke_context_of(request, extension_id, trust),
        request.network_policy,
        needed_handles(request.credential_injections, request.capability_id),
        correlation_id,
    );
    if known.context_check is None {
        EgressStepView::CheckContext { asked }
    } else if known.context_check->0 is Err {
        EgressStepView::Finish
    } else if known.satisfied is None {
        EgressStepView::Satisfy { asked }
    } else if known.satisfied->0 is Err || known.answered {
        EgressStepView::Finish
    } else {
        EgressStepView::Send { request }
    }
}

/// Sends requests that the host initiates for one extension.
#[derive(Debug)]
pub struct HostInitiatedHttpEgress {
    pub port: HostRuntimeHttpEgressPort,
    pub extension_id: ExtensionId,
    pub trust: TrustClass,
}

impl HostInitiatedHttpEgress {
    /// What the obligation handler is asked before a request leaves: its network
    /// policy, and a lease for each secret its injections need.
    pub fn obligations(&self, request: &RuntimeHttpEgressRequest, correlation_id: u128) -> (r:
        ObligationRequest)
        ensures
            r@ == obligation_request_of(
                invoke_context_of(request@, self.extension_id@, self.trust),
                request@.network_policy,
                needed_handles(request@.credential_injections, request@.capability_id),
                correlation_id,
            ),
    {
        let handles = staged_secret_handles(request);
        self.port.stage_network_policy_and_secret_injections(
            HostInitiatedInvokeContext {
                extension_id: self.extension_id.clone(),
                trust: self.trust,
                runtime: request.runtime,
                scope: &request.scope,
                capability_id: &request.capability_id,
            },
            request.network_policy.clone(),
            &handles,
            correlation_id,
        )
    }

    /// What the host does next for a request, from its answers so far. Nothing is
    /// stored for it, so nothing is discarded.
    pub fn next_step(
        &self,
        request: &RuntimeHttpEgressRequest,
        known: &EgressAnswers,
        correlation_id: u128,
    ) -> (r: EgressStep)
        ensures
            r@ == initiated_step_of(
                request@,
                self.extension_id@,
                self.trust,
                known@,
                correlation_id,
            ),
    {
        match &known.context_check {
            None => {
                return EgressStep::CheckContext {
                    asked: self.obligations(request, correlation_id),
                };
            },
            Some(Err(_)) => {
                return EgressStep::Finish;
            },
            Some(Ok(())) => {},
        }
        match &known.satisfied {
            None => {
                return EgressStep::Satisfy { asked: self.obligations(request, correlation_id) };
            },
            Some(Err(_)) => {
                return EgressStep::Finish;
            },
            Some(Ok(())) => {},
        }
        if known.answered {
            EgressStep::Finish
        } else {
            EgressStep::Send { request: request.clone() }
        }
    }

    /// The result of a request, from the answers of the obligation handler and
    /// what sending it gave. Without authorization it is never sent.
    pub fn execute<R>(
        &self,
        context_check: Result<(), String>,
        satisfied: Result<(), String>,
        response: Result<R, RuntimeHttpEgressError>,
    ) -> (r: Result<R, RuntimeHttpEgressError>)
        ensures
            response_view(r) == initiated_result(
                outcome(context_check),
                outcome(satisfied),
                response_view(response),
            ),
    {
        match obligation_verdict(context_check, satisfied) {
            Err(error) => Err(error),
            Ok(()) => response,
        }
    }
}

/// A request is sent only once the host has admitted it and stored every
/// credential, and it is sent with an injection for each of them.
pub proof fn law_sent_only_when_admitted_and_staged(
    request: HostRuntimeHttpEgressRequestView,
    known: EgressAnswersView,
    correlation_id: u128,
    sent: RuntimeHttpEgressRequestView,
)
    requires
        egress_step_of(request, known, correlation_id) == (EgressStepView::Send { request: sent }),
    ensures
        known.context_check is Some,
        known.satisfied is Some,
        is_sent(request, known.context_check->0, known.satisfied->0, known.stored),
        sent == sent_request(request),
        !known.answered,
{
}

/// A request that the host initiates is sent only once its policy and its secrets
/// are authorized, and it is sent unchanged.
pub proof fn law_initiated_request_is_sent_only_when_authorized(
    request: RuntimeHttpEgressRequestView,
    extension_id: Seq<char>,
    trust: TrustClass,
    known: EgressAnswersView,
    correlation_id: u128,
    sent: RuntimeHttpEgressRequestView,
)
    requires
        initiated_step_of(request, extension_id, trust, known, correlation_id) == (
        EgressStepView::Send { request: sent }),
    ensures
        known.context_check is Some,
        known.satisfied is Some,
        authorization_of(known.context_check->0, known.satisfied->0) is Ok,
        sent == request,
        !known.answered,
{
}

/// Once nothing is left to do, no answer that the host has not given could
/// change the result.
pub proof fn law_unasked_answers_do_not_change_the_result<R>(
    request: HostRuntimeHttpEgressRequestView,
    known: EgressAnswersView,
    correlation_id: u128,
    context_check: Result<(), Seq<char>>,
    satisfied: Result<(), Seq<char>>,
    left: Result<R, RuntimeHttpEgressErrorView>,
    right: Result<R, RuntimeHttpEgressErrorView>,
)
    requires
        egress_step_of(request, known, correlation_id) == EgressStepView::Finish,
    ensures
        known.answered || egress_result(
            request,
            verdict_or(known.context_check, context_check),
            verdict_or(known.satisfied, satisfied),
            known.stored,
            left,
        ) == egress_result(
            request,
            verdict_or(known.context_check, Ok(())),
            verdict_or(known.satisfied, Ok(())),
            known.stored,
            right,
        ),
        request.credentials.len() == 0 || known.discard_asked || admission(
            request,
            verdict_or(known.context_check, Ok(())),
            verdict_or(known.satisfied, Ok(())),
        ) is Err,
{
}

/// Nothing stays staged for a capability call once the store has discarded it:
/// whether the request was sent, failed on the way or was never sent.
pub proof fn law_nothing_stays_staged(
    staged: Seq<StagedSecretView>,
    request: HostRuntimeHttpEgressRequestView,
    context_check: Result<(), Seq<char>>,
    satisfied: Result<(), Seq<char>>,
    stored: Seq<bool>,
    secret: StagedSecretView,
)
    requires
        admission(request, context_check, satisfied) is Ok,
        request.credentials.len() > 0,
        secret.scope == request.request.scope,
        secret.capability_id == request.request.capability_id,
    ensures
        !staged_after(staged, request, context_check, satisfied, stored, true).contains(secret),
{
    let after = staged_after(staged, request, context_check, satisfied, stored, true);
    if after.contains(secret) {
        broadcast use vstd::seq_lib::group_filter_ensures;
        let k = choose|k: int| 0 <= k < after.len() && after[k] == secret;
        assert(staged_elsewhere(request.request.scope, request.request.capability_id)(after[k]));
    }
}

/// A request never disturbs what is staged for another scope or another
/// capability.
pub proof fn law_other_calls_stay_staged(
    staged: Seq<StagedSecretView>,
    request: HostRuntimeHttpEgressRequestView,
    context_check: Result<(), Seq<char>>,
    satisfied: Result<(), Seq<char>>,
    stored: Seq<bool>,
    discarded: bool,
    secret: StagedSecretView,
)
    requires
        staged.contains(secret),
        secret.scope != request.request.scope || secret.capability_id
            != request.request.capability_id,
    ensures
        staged_after(staged, request, context_check, satisfied, stored, discarded).contains(
            secret,
        ),
{
    let k = choose|k: int| 0 <= k < staged.len() && staged[k] == secret;
    let count = stored_count(stored, request.credentials.len());
    let during = staged + staged_secrets(
        request.request.scope,
        request.request.capability_id,
        request.credentials.take(count as int),
    );
    assert(during[k] == secret);
    let keep = staged_elsewhere(request.request.scope, request.request.capability_id);
    assert(keep(during[k]));
    during.lemma_filter_contains(keep, k);
}

/// A request that brings injections of its own is refused, and never sent.
pub proof fn law_caller_injections_are_never_sent<R>(
    request: HostRuntimeHttpEgressRequestView,
    context_check: Result<(), Seq<char>>,
    satisfied: Result<(), Seq<char>>,
    stored: Seq<bool>,
    response: Result<R, RuntimeHttpEgressErrorView>,
)
    requires
        request.request.credential_injections.len() > 0,
    ensures
        !is_sent(request, context_check, satisfied, stored),
        egress_result(request, context_check, satisfied, stored, response) == Err::<
            R,
            RuntimeHttpEgressErrorView,
        >(caller_injections_refused()),
{
}

/// The request that is sent is the caller's own in runtime, scope, capability, method,
/// url, headers, body, network policy, response limit and timeout. Behind the
/// injections it had it has one for each credential, in order: with the handle, the
/// target and the need of the credential, staged for the request's own capability.
pub proof fn law_sent_request_is_the_callers(request: HostRuntimeHttpEgressRequestView)
    ensures
        ({
            let sent = sent_request(request);
            let own = request.request;
            let had = own.credential_injections.len();
            &&& sent.runtime == own.runtime
            &&& sent.scope == own.scope
            &&& sent.capability_id == own.capability_id
            &&& sent.method == own.method
            &&& sent.url == own.url
            &&& sent.headers == own.headers
            &&& sent.body == own.body
            &&& sent.network_policy == own.network_policy
            &&& sent.response_body_limit == own.response_body_limit
            &&& sent.timeout_ms == own.timeout_ms
            &&& sent.credential_injections.len() == had + request.credentials.len()
            &&& forall|k: int|
                0 <= k < had ==> #[trigger] sent.credential_injections[k]
                    == own.credential_injections[k]
            &&& forall|k: int|
                0 <= k < request.credentials.len() ==> {
                    let injection = sent.credential_injections[had + k];
                    let credential = #[trigger] request.credentials[k];
                    &&& injection.handle == credential.handle
                    &&& injection.target == credential.target
                    &&& injection.required == credential.required
                    &&& injection.source == (RuntimeCredentialSourceView::StagedObligation {
                        capability_id: own.capability_id,
                    })
                }
        }),
{
}

/// As many credentials are stored as come before the first that the store refused or
/// was not asked about.
pub proof fn law_storing_stops_at_the_first_refusal(stored: Seq<bool>, wanted: nat)
    ensures
        ({
            let count = stored_count(stored, wanted);
            &&& count <= wanted
            &&& count <= stored.len()
            &&& forall|k: int| 0 <= k < count ==> #[trigger] stored[k]
            &&& count < wanted && count < stored.len() ==> !stored[count as int]
        }),
    decreases wanted,
{
    if wanted > 0 && stored.len() > 0 && stored[0] {
        let rest = stored.drop_first();
        law_storing_stops_at_the_first_refusal(rest, (wanted - 1) as nat);
        let count = stored_count(stored, wanted);
        assert forall|k: int| 0 <= k < count implies #[trigger] stored[k] by {
            if k > 0 {
                assert(rest[k - 1] == stored[k]);
            }
        }
    }
}

/// A request is sent exactly if it brings no injection of its own, its context is
/// valid, its obligations are satisfied, and the store took every credential. Its
/// result is then what sending it gave. Else it is the refusal, of which an injection of
/// its own comes first, then the context, the obligations and the store.
pub proof fn law_result_is_the_response_or_the_first_refusal<R>(
    request: HostRuntimeHttpEgressRequestView,
    context_check: Result<(), Seq<char>>,
    satisfied: Result<(), Seq<char>>,
    stored: Seq<bool>,
    response: Result<R, RuntimeHttpEgressErrorView>,
)
    ensures
        ({
            let bare = request.request.credential_injections.len() == 0;
            let took_all = stored.len() >= request.credentials.len() && forall|k: int|
                0 <= k < request.credentials.len() ==> #[trigger] stored[k];
            let result = egress_result(request, context_check, satisfied, stored, response);
            let refused = |reason: Seq<char>|
                Err::<R, RuntimeHttpEgressErrorView>(
                    RuntimeHttpEgressErrorView::Credential { reason },
                );
            &&& is_sent(request, context_check, satisfied, stored) <==> bare && context_check is Ok
                && satisfied is Ok && took_all
            &&& bare && context_check is Ok && satisfied is Ok && took_all ==> result == response
            &&& !bare ==> result == refused(
                "host-mediated HTTP egress does not accept caller-provided credential injections"@,
            )
            &&& bare && context_check is Err ==> result == refused(
                "invalid host HTTP egress context: "@ + context_check->Err_0,
            )
            &&& bare && context_check is Ok && satisfied is Err ==> result == Err::<
                R,
                RuntimeHttpEgressErrorView,
            >(
                RuntimeHttpEgressErrorView::Request {
                    reason: "host egress obligations were not authorized: "@ + satisfied->Err_0,
                    request_bytes: 0,
                    response_bytes: 0,
                },
            )
            &&& bare && context_check is Ok && satisfied is Ok && !took_all ==> result == refused(
                "host credential material could not be staged"@,
            )
        }),
{
    let wanted = request.credentials.len();
    law_storing_stops_at_the_first_refusal(stored, wanted);
    let count = stored_count(stored, wanted);
    if count < wanted && count < stored.len() {
        assert(!stored[count as int]);
    }
}

/// What is staged before its secrets are discarded is what was staged, and one secret
/// for each credential that the store took, in order, for the request's own scope and
/// capability. Nothing is staged for a request that is not admitted.
pub proof fn law_staged_secrets_are_of_the_request(
    staged: Seq<StagedSecretView>,
    request: HostRuntimeHttpEgressRequestView,
    context_check: Result<(), Seq<char>>,
    satisfied: Result<(), Seq<char>>,
    stored: Seq<bool>,
)
    ensures
        ({
            let admitted = request.request.credential_injections.len() == 0 && context_check is Ok
                && satisfied is Ok;
            let after = staged_after(staged, request, context_check, satisfied, stored, false);
            let cleared = staged_after(staged, request, context_check, satisfied, stored, true);
            let count = stored_count(stored, request.credentials.len());
            &&& !admitted ==> after == staged && cleared == staged
            &&& request.credentials.len() == 0 ==> after == staged && cleared == staged
            &&& admitted ==> after.len() == staged.len() + count
            &&& forall|k: int| 0 <= k < staged.len() ==> #[trigger] after[k] == staged[k]
            &&& admitted ==> forall|k: int|
                0 <= k < count ==> {
                    let secret = after[staged.len() + k];
                    &&& secret.handle == (#[trigger] request.credentials[k]).handle
                    &&& secret.scope == request.request.scope
                    &&& secret.capability_id == request.request.capability_id
                }
        }),
{
    law_storing_stops_at_the_first_refusal(stored, request.credentials.len());
    let count = stored_count(stored, request.credentials.len());
    let during = staged + staged_secrets(
        request.request.scope,
        request.request.capability_id,
        request.credentials.take(count as int),
    );
    if request.credentials.len() == 0 {
        assert(during =~= staged);
    }
}

/// For a request the host checks the context, asks the obligation handler, stores one
/// credential after the other, sends the request once all are stored and at most once,
/// and has them discarded after the response or the first refusal. An injection of the
/// caller's own, an invalid context and refused obligations end it.
pub proof fn law_request_steps_come_in_order(
    request: HostRuntimeHttpEgressRequestView,
    known: EgressAnswersView,
    correlation_id: u128,
)
    ensures
        ({
            let step = egress_step_of(request, known, correlation_id);
            let wanted = request.credentials.len();
            let bare = request.request.credential_injections.len() == 0;
            let valid = bare && known.context_check is Some && known.context_check->0 is Ok;
            let admitted = valid && known.satisfied is Some && known.satisfied->0 is Ok;
            let count = stored_count(known.stored, wanted);
            &&& step is CheckContext <==> bare && known.context_check is None
            &&& step is Satisfy <==> valid && known.satisfied is None
            &&& step is Store <==> admitted && count < wanted && count == known.stored.len()
            &&& step matches EgressStepView::Store { index } ==> index == known.stored.len()
            &&& step is Send <==> admitted && count == wanted && !known.answered
            &&& step is Discard <==> admitted && wanted > 0 && !known.discard_asked && (count
                == wanted && known.answered || count < wanted && count < known.stored.len())
        }),
        ({
            let step = egress_step_of(request, known, correlation_id);
            let asked = obligation_request_of(
                HostInitiatedInvokeContextView {
                    extension_id: request.extension_id,
                    trust: request.trust,
                    runtime: request.request.runtime,
                    scope: request.request.scope,
                    capability_id: request.request.capability_id,
                },
                request.request.network_policy,
                Seq::empty(),
                correlation_id,
            );
            &&& step matches EgressStepView::CheckContext { asked: found } ==> found == asked
            &&& step matches EgressStepView::Satisfy { asked: found } ==> found == asked
        }),
{
    law_storing_stops_at_the_first_refusal(known.stored, request.credentials.len());
}

/// A request that the host initiates is sent as it is, at most once, and only with a
/// valid context and satisfied obligations: its own network policy, and a lease for each
/// secret that its injections need. Its result is the response, or the first refusal.
pub proof fn law_initiated_steps_come_in_order<R>(
    request: RuntimeHttpEgressRequestView,
    extension_id: Seq<char>,
    trust: TrustClass,
    known: EgressAnswersView,
    correlation_id: u128,
    response: Result<R, RuntimeHttpEgressErrorView>,
)
    ensures
        ({
            let step = initiated_step_of(request, extension_id, trust, known, correlation_id);
            let valid = known.context_check is Some && known.context_check->0 is Ok;
            let asked = obligation_request_of(
                HostInitiatedInvokeContextView {
                    extension_id,
                    trust,
                    runtime: request.runtime,
                    scope: request.scope,
                    capability_id: request.capability_id,
                },
                request.network_policy,
                needed_handles(request.credential_injections, request.capability_id),
                correlation_id,
            );
            &&& step is CheckContext <==> known.context_check is None
            &&& step is Satisfy <==> valid && known.satisfied is None
            &&& step is Send <==> valid && known.satisfied is Some && known.satisfied->0 is Ok
                && !known.answered
            &&& !(step is Store) && !(step is Discard)
            &&& step matches EgressStepView::CheckContext { asked: found } ==> found == asked
            &&& step matches EgressStepView::Satisfy { asked: found } ==> found == asked
            &&& step matches EgressStepView::Send { request: sent } ==> sent == request
        }),
        ({
            let context_check = verdict_or(known.context_check, Ok(()));
            let satisfied = verdict_or(known.satisfied, Ok(()));
            let result = initiated_result(context_check, satisfied, response);
            &&& context_check is Ok && satisfied is Ok ==> result == response
            &&& context_check is Err ==> result == Err::<R, RuntimeHttpEgressErrorView>(
                RuntimeHttpEgressErrorView::Credential {
                    reason: "invalid host HTTP egress context: "@ + context_check->Err_0,
                },
            )
            &&& context_check is Ok && satisfied is Err ==> result == Err::<
                R,
                RuntimeHttpEgressErrorView,
            >(
                RuntimeHttpEgressErrorView::Request {
                    reason: "host egress obligations were not authorized: "@ + satisfied->Err_0,
                    request_bytes: 0,
                    response_bytes: 0,
                },
            )
        }),
{
}

} // verus!
