//! Which answer of the host an evaluation needs next.
//!
//! A descriptor is evaluated with as few questions as its fate needs: nothing is
//! asked about one that policy omits, and the authorizer is asked only about a
//! capability that has a plan and a trusted provider.

use vstd::prelude::*;

use crate::capability::{
    CapabilityDescriptor, CapabilityDescriptorView, CapabilityVisibility, EffectKind,
    ResourceEstimate, ResourceEstimateView,
};
use crate::context::{trust_in, TrustDecision, TrustDecisionView};
use crate::json::json_string_member;
use crate::surface::evaluate::{
    access_for, access_of, considered, estimate_for, estimate_of, evaluation, schema_reference,
    schema_source_of, trust_for, AuthorizationDecision, CapabilityCatalog, CapabilityCatalogView,
    DescriptorAnswers, DescriptorAnswersView, SchemaRead, SchemaReadView, SchemaSource,
    SchemaSourceView,
};
use crate::surface::policy::law_policy_admits_what_it_lists;
use crate::surface::{
    DescriptorSource, HostRuntimeError, HostRuntimeErrorView, VisibleCapabilityRequest,
    VisibleCapabilityRequestView,
};

verus! {

/// The answers about one descriptor so far. `None` stands for an open question.
#[derive(Debug, PartialEq, Eq)]
pub struct PartialAnswers {
    pub plannable: Option<bool>,
    pub decision: Option<AuthorizationDecision>,
    /// Whether the built-in schema was looked up.
    pub builtin_asked: bool,
    pub builtin_schema: Option<String>,
    pub package_schema: Option<SchemaRead>,
}

/// The mathematical value of a [`PartialAnswers`].
#[verifier::ext_equal]
pub struct PartialAnswersView {
    pub plannable: Option<bool>,
    pub decision: Option<AuthorizationDecision>,
    pub builtin_asked: bool,
    pub builtin_schema: Option<Seq<char>>,
    pub package_schema: Option<SchemaReadView>,
}

impl View for PartialAnswers {
    type V = PartialAnswersView;

    open spec fn view(&self) -> PartialAnswersView {
        PartialAnswersView {
            plannable: self.plannable,
            decision: self.decision,
            builtin_asked: self.builtin_asked,
            builtin_schema: self.builtin_schema.deep_view(),
            package_schema: self.package_schema.deep_view(),
        }
    }
}

impl DeepView for PartialAnswers {
    type V = PartialAnswersView;

    open spec fn deep_view(&self) -> PartialAnswersView {
        self@
    }
}

impl Clone for PartialAnswers {
    fn clone(&self) -> (r: Self)
        ensures
            r@ == self@,
    {
        let r = PartialAnswers {
            plannable: self.plannable,
            decision: self.decision,
            builtin_asked: self.builtin_asked,
            builtin_schema: self.builtin_schema.clone(),
            package_schema: self.package_schema.clone(),
        };
        assert(r.builtin_schema.deep_view() =~= self.builtin_schema.deep_view());
        assert(r.package_schema.deep_view() =~= self.package_schema.deep_view());
        r
    }
}

/// What the host is asked next about a descriptor.
#[derive(Debug, PartialEq, Eq)]
pub enum Question {
    /// Its fate is decided.
    Nothing,
    /// Whether the runtime policy has a plan for it.
    Plan,
    /// Whether its dispatch is authorized, with this trust and estimate.
    Authorize { trust: TrustDecision, estimate: ResourceEstimate },
    /// What the built-in schema with this reference is.
    BuiltinSchema { reference: String },
    /// What the file with this reference under a package root holds.
    PackageSchema { root: String, reference: String },
}

/// The mathematical value of a [`Question`].
#[verifier::ext_equal]
pub enum QuestionView {
    Nothing,
    Plan,
    Authorize { trust: TrustDecisionView, estimate: ResourceEstimateView },
    BuiltinSchema { reference: Seq<char> },
    PackageSchema { root: Seq<char>, reference: Seq<char> },
}

impl View for Question {
    type V = QuestionView;

    open spec fn view(&self) -> QuestionView {
        match self {
            Question::Nothing => QuestionView::Nothing,
            Question::Plan => QuestionView::Plan,
            Question::Authorize { trust, estimate } => QuestionView::Authorize {
                trust: trust@,
                estimate: estimate@,
            },
            Question::BuiltinSchema { reference } => QuestionView::BuiltinSchema {
                reference: reference@,
            },
            Question::PackageSchema { root, reference } => QuestionView::PackageSchema {
                root: root@,
                reference: reference@,
            },
        }
    }
}

impl DeepView for Question {
    type V = QuestionView;

    open spec fn deep_view(&self) -> QuestionView {
        self@
    }
}

impl Clone for Question {
    fn clone(&self) -> (r: Self)
        ensures
            r@ == self@,
    {
        match self {
            Question::Nothing => Question::Nothing,
            Question::Plan => Question::Plan,
            Question::Authorize { trust, estimate } => Question::Authorize {
                trust: trust.clone(),
                estimate: estimate.clone(),
            },
            Question::BuiltinSchema { reference } => Question::BuiltinSchema {
                reference: reference.clone(),
            },
            Question::PackageSchema { root, reference } => Question::PackageSchema {
                root: root.clone(),
                reference: reference.clone(),
            },
        }
    }
}

/// The next question about a descriptor.
pub open spec fn question_of(
    catalog: CapabilityCatalogView,
    request: VisibleCapabilityRequestView,
    descriptor: CapabilityDescriptorView,
    reference: Option<Seq<char>>,
    known: PartialAnswersView,
) -> QuestionView {
    if !considered(catalog, request.policy, descriptor) {
        QuestionView::Nothing
    } else {
        match (
            known.plannable,
            trust_in(request.provider_trust, descriptor.provider),
            known.decision,
        ) {
            (None, _, _) => QuestionView::Plan,
            (Some(false), _, _) => QuestionView::Nothing,
            (Some(true), None, _) => QuestionView::Nothing,
            (Some(true), Some(trust), None) => QuestionView::Authorize {
                trust,
                estimate: estimate_of(descriptor),
            },
            (Some(true), Some(_), Some(decision)) => {
                if access_of(decision, request.policy.include_requires_approval) is None {
                    QuestionView::Nothing
                } else {
                    match schema_source_of(catalog, descriptor, reference) {
                        Ok(SchemaSourceView::Builtin { reference }) => if known.builtin_asked {
                            QuestionView::Nothing
                        } else {
                            QuestionView::BuiltinSchema { reference }
                        },
                        Ok(
                            SchemaSourceView::Package { root, reference },
                        ) => if known.package_schema is Some {
                            QuestionView::Nothing
                        } else {
                            QuestionView::PackageSchema { root, reference }
                        },
                        _ => QuestionView::Nothing,
                    }
                }
            },
        }
    }
}

/// The answers with every open question refused.
pub open spec fn completed(known: PartialAnswersView) -> DescriptorAnswersView {
    DescriptorAnswersView {
        plannable: known.plannable == Some(true),
        decision: match known.decision {
            Some(decision) => decision,
            None => AuthorizationDecision::Deny,
        },
        builtin_schema: known.builtin_schema,
        package_schema: match known.package_schema {
            Some(read) => read,
            None => SchemaReadView::Failed {
                error: HostRuntimeErrorView::Failed { reason: "schema was not read"@ },
            },
        },
    }
}

/// Whether full answers agree with the ones known so far.
pub open spec fn agrees(known: PartialAnswersView, answers: DescriptorAnswersView) -> bool {
    &&& known.plannable matches Some(plannable) ==> answers.plannable == plannable
    &&& known.decision matches Some(decision) ==> answers.decision == decision
    &&& known.builtin_asked ==> answers.builtin_schema == known.builtin_schema
    &&& known.package_schema matches Some(read) ==> answers.package_schema == read
}

impl PartialAnswers {
    /// No answers yet.
    pub fn none() -> (r: Self)
        ensures
            r@ == (PartialAnswersView {
                plannable: None,
                decision: None,
                builtin_asked: false,
                builtin_schema: None,
                package_schema: None,
            }),
    {
        PartialAnswers {
            plannable: None,
            decision: None,
            builtin_asked: false,
            builtin_schema: None,
            package_schema: None,
        }
    }

    /// The answers with every open question refused.
    pub fn complete(self) -> (r: DescriptorAnswers)
        ensures
            r@ == completed(self@),
    {
        DescriptorAnswers {
            plannable: match self.plannable {
                Some(plannable) => plannable,
                None => false,
            },
            decision: match self.decision {
                Some(decision) => decision,
                None => AuthorizationDecision::Deny,
            },
            builtin_schema: self.builtin_schema,
            package_schema: match self.package_schema {
                Some(read) => read,
                None => SchemaRead::Failed {
                    error: HostRuntimeError::Failed { reason: "schema was not read".to_string() },
                },
            },
        }
    }
}

impl CapabilityCatalog {
    /// The next question about a descriptor.
    pub fn question(
        &self,
        request: &VisibleCapabilityRequest,
        descriptor: &CapabilityDescriptor,
        known: &PartialAnswers,
    ) -> (r: Question)
        ensures
            r@ == question_of(
                self@,
                request@,
                descriptor@,
                schema_reference(descriptor@),
                known@,
            ),
    {
        let reference = json_string_member(descriptor.parameters_schema.as_str(), "$ref");
        self.question_at(request, descriptor, reference, known)
    }

    /// The next question about a descriptor, given the reference its schema
    /// holds.
    pub fn question_at(
        &self,
        request: &VisibleCapabilityRequest,
        descriptor: &CapabilityDescriptor,
        reference: Option<String>,
        known: &PartialAnswers,
    ) -> (r: Question)
        ensures
            r@ == question_of(self@, request@, descriptor@, reference.deep_view(), known@),
    {
        if !self.considers(&request.policy, descriptor) {
            return Question::Nothing;
        }
        match known.plannable {
            None => return Question::Plan,
            Some(false) => return Question::Nothing,
            Some(true) => {},
        }
        let trust = match trust_for(request, descriptor) {
            None => return Question::Nothing,
            Some(trust) => trust.clone(),
        };
        let decision = match known.decision {
            None => return Question::Authorize { trust, estimate: estimate_for(descriptor) },
            Some(decision) => decision,
        };
        if access_for(decision, &request.policy).is_none() {
            return Question::Nothing;
        }
        match self.schema_source_at(descriptor, reference) {
            Ok(SchemaSource::Builtin { reference }) => if known.builtin_asked {
                Question::Nothing
            } else {
                Question::BuiltinSchema { reference }
            },
            Ok(SchemaSource::Package { root, reference }) => if known.package_schema.is_some() {
                Question::Nothing
            } else {
                Question::PackageSchema { root, reference }
            },
            _ => Question::Nothing,
        }
    }
}

/// Once nothing is left to ask, the answers that were not asked for do not
/// matter: every full set of answers that agrees with the known ones gives the
/// same evaluation as refusing the open questions.
pub proof fn law_unasked_answers_do_not_matter(
    catalog: CapabilityCatalogView,
    request: VisibleCapabilityRequestView,
    descriptor: CapabilityDescriptorView,
    source: DescriptorSource,
    reference: Option<Seq<char>>,
    known: PartialAnswersView,
    answers: DescriptorAnswersView,
)
    requires
        question_of(catalog, request, descriptor, reference, known) is Nothing,
        agrees(known, answers),
    ensures
        evaluation(catalog, request, descriptor, source, reference, completed(known))
            == evaluation(catalog, request, descriptor, source, reference, answers),
{
}

/// The authorizer is asked only about a capability that policy admits, that has
/// a plan and whose provider is trusted.
pub proof fn law_authorizer_is_asked_only_about_admitted_capabilities(
    catalog: CapabilityCatalogView,
    request: VisibleCapabilityRequestView,
    descriptor: CapabilityDescriptorView,
    reference: Option<Seq<char>>,
    known: PartialAnswersView,
)
    ensures
        question_of(catalog, request, descriptor, reference, known) matches QuestionView::Authorize {
            trust,
            estimate,
        } ==> considered(catalog, request.policy, descriptor) && known.plannable == Some(true)
            && trust_in(request.provider_trust, descriptor.provider) == Some(trust) && estimate
            == estimate_of(descriptor),
        question_of(catalog, request, descriptor, reference, known) is Plan ==> considered(
            catalog,
            request.policy,
            descriptor,
        ),
{
}

/// The host is asked first whether a descriptor can be planned, then for an
/// authorization with the trust of its provider and its own estimate, then for the
/// schema that its reference names. Nothing is asked twice, and nothing at all about
/// a descriptor that is not going to be shown.
pub proof fn law_questions_come_in_order_and_once(
    catalog: CapabilityCatalogView,
    request: VisibleCapabilityRequestView,
    descriptor: CapabilityDescriptorView,
    reference: Option<Seq<char>>,
    known: PartialAnswersView,
)
    ensures
        ({
            let question = question_of(catalog, request, descriptor, reference, known);
            let visible = catalog.registry.visibility(descriptor.id) != Some(
                CapabilityVisibility::HostInternal,
            );
            let listed = request.policy.allowed_runtimes.contains(descriptor.runtime) && forall|
                effect: EffectKind,
            |
                descriptor.effects.contains(effect) ==> #[trigger]
                request.policy.allowed_effects.contains(effect);
            let trust = trust_in(request.provider_trust, descriptor.provider);
            let authorized = known.decision == Some(AuthorizationDecision::Allow)
                || known.decision == Some(AuthorizationDecision::RequireApproval)
                && request.policy.include_requires_approval;
            let ready = visible && listed && known.plannable == Some(true) && trust is Some;
            let builtin = descriptor.provider == catalog.builtin_provider;
            let package = catalog.registry.extension(descriptor.provider);
            let packaged = !builtin && reference is Some && catalog.has_filesystem && package is Some
                && package->0.declaration(descriptor.id) is Some && package->0.declaration(
                descriptor.id,
            )->0.input_schema_ref == reference->0;
            &&& question is Plan <==> visible && listed && known.plannable is None
            &&& question is Authorize <==> ready && known.decision is None
            &&& question matches QuestionView::Authorize { trust: asked, estimate } ==> {
                &&& trust == Some(asked)
                &&& descriptor.resource_profile matches Some(profile) ==> estimate
                    == profile.default_estimate
                &&& descriptor.resource_profile is None ==> estimate.network_egress_bytes is None
                    && estimate.limits.len() == 0
            }
            &&& question is BuiltinSchema <==> ready && authorized && builtin && reference is Some
                && !known.builtin_asked
            &&& question matches QuestionView::BuiltinSchema { reference: asked } ==> reference
                == Some(asked)
            &&& question is PackageSchema <==> ready && authorized && packaged
                && known.package_schema is None
            &&& question matches QuestionView::PackageSchema { root, reference: asked } ==> root
                == package->0.root && reference == Some(asked)
        }),
{
    law_policy_admits_what_it_lists(request.policy, descriptor.runtime, descriptor.effects);
}

/// An answer that was never given counts as a refusal, and one that was given counts
/// as it is.
pub proof fn law_open_questions_are_refused(known: PartialAnswersView)
    ensures
        known.plannable matches Some(plannable) ==> completed(known).plannable == plannable,
        known.plannable is None ==> !completed(known).plannable,
        known.decision matches Some(decision) ==> completed(known).decision == decision,
        known.decision is None ==> completed(known).decision == AuthorizationDecision::Deny,
        completed(known).builtin_schema == known.builtin_schema,
        known.package_schema matches Some(read) ==> completed(known).package_schema == read,
        known.package_schema is None ==> completed(known).package_schema is Failed,
{
}

} // verus!
