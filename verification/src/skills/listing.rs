//! The skills of an owner, and those that come with the host.

use vstd::prelude::*;

use crate::outcome::outcome;
use crate::skills::management::{
    ScopedSkillManagementError, ScopedSkillManagementErrorView, SkillManagementError,
    SkillManagementErrorKind, SkillManagementErrorView,
};
use crate::order::law_sorting_keeps_items;
use crate::skills::{
    law_skills_are_listed_by_name_then_source, skill_key, sort_skills, sorted_skills,
    ManagedSkillSource, SkillSummary, SkillSummaryView,
};
use crate::text::{joined, text_before};

verus! {

/// Why the host could not be composed.
#[derive(Debug, PartialEq, Eq)]
pub enum RebornBuildError {
    /// The configuration is not valid.
    InvalidConfig { reason: String },
    /// A mount was refused.
    Mount { reason: String },
    /// The filesystem failed.
    Filesystem { reason: String },
}

/// The mathematical value of a [`RebornBuildError`].
#[verifier::ext_equal]
pub enum RebornBuildErrorView {
    InvalidConfig { reason: Seq<char> },
    Mount { reason: Seq<char> },
    Filesystem { reason: Seq<char> },
}

impl View for RebornBuildError {
    type V = RebornBuildErrorView;

    open spec fn view(&self) -> RebornBuildErrorView {
        match self {
            RebornBuildError::InvalidConfig { reason } => RebornBuildErrorView::InvalidConfig {
                reason: reason@,
            },
            RebornBuildError::Mount { reason } => RebornBuildErrorView::Mount { reason: reason@ },
            RebornBuildError::Filesystem { reason } => RebornBuildErrorView::Filesystem {
                reason: reason@,
            },
        }
    }
}

impl DeepView for RebornBuildError {
    type V = RebornBuildErrorView;

    open spec fn deep_view(&self) -> RebornBuildErrorView {
        self@
    }
}

impl Clone for RebornBuildError {
    fn clone(&self) -> (r: Self)
        ensures
            r@ == self@,
    {
        match self {
            RebornBuildError::InvalidConfig { reason } => RebornBuildError::InvalidConfig {
                reason: reason.clone(),
            },
            RebornBuildError::Mount { reason } => RebornBuildError::Mount {
                reason: reason.clone(),
            },
            RebornBuildError::Filesystem { reason } => RebornBuildError::Filesystem {
                reason: reason.clone(),
            },
        }
    }
}

/// Why skills could not be listed.
#[derive(Debug, PartialEq, Eq)]
pub enum RebornSkillListError {
    /// The host could not be composed.
    Build(RebornBuildError),
    /// The request was rejected.
    InvalidRequest { reason: String },
    /// The skills may not be read.
    AccessDenied,
    /// Skill management is not available.
    Unavailable { reason: String },
}

/// The mathematical value of a [`RebornSkillListError`].
#[verifier::ext_equal]
pub enum RebornSkillListErrorView {
    Build(RebornBuildErrorView),
    InvalidRequest { reason: Seq<char> },
    AccessDenied,
    Unavailable { reason: Seq<char> },
}

impl View for RebornSkillListError {
    type V = RebornSkillListErrorView;

    open spec fn view(&self) -> RebornSkillListErrorView {
        match self {
            RebornSkillListError::Build(a) => RebornSkillListErrorView::Build(a@),
            RebornSkillListError::InvalidRequest { reason } => RebornSkillListErrorView::InvalidRequest {
                reason: reason@,
            },
            RebornSkillListError::AccessDenied => RebornSkillListErrorView::AccessDenied,
            RebornSkillListError::Unavailable { reason } => RebornSkillListErrorView::Unavailable {
                reason: reason@,
            },
        }
    }
}

impl DeepView for RebornSkillListError {
    type V = RebornSkillListErrorView;

    open spec fn deep_view(&self) -> RebornSkillListErrorView {
        self@
    }
}

impl Clone for RebornSkillListError {
    fn clone(&self) -> (r: Self)
        ensures
            r@ == self@,
    {
        match self {
            RebornSkillListError::Build(a) => RebornSkillListError::Build(a.clone()),
            RebornSkillListError::InvalidRequest { reason } => RebornSkillListError::InvalidRequest {
                reason: reason.clone(),
            },
            RebornSkillListError::AccessDenied => RebornSkillListError::AccessDenied,
            RebornSkillListError::Unavailable { reason } => RebornSkillListError::Unavailable {
                reason: reason.clone(),
            },
        }
    }
}

impl RebornSkillListError {
    /// The message of the error. A failure to compose the host is shown by the
    /// given text.
    pub fn message(&self, build: &str) -> (r: String)
        ensures
            r@ == match self@ {
                RebornSkillListErrorView::Build(_) => build@,
                RebornSkillListErrorView::InvalidRequest { reason } =>
                    "skill list request rejected: "@ + reason,
                RebornSkillListErrorView::AccessDenied => "skill list access denied"@,
                RebornSkillListErrorView::Unavailable { reason } => "skill list unavailable: "@
                    + reason,
            },
    {
        match self {
            RebornSkillListError::Build(_) => build.to_string(),
            RebornSkillListError::InvalidRequest { reason } => joined(
                "skill list request rejected: ",
                reason.as_str(),
            ),
            RebornSkillListError::AccessDenied => "skill list access denied".to_string(),
            RebornSkillListError::Unavailable { reason } => joined(
                "skill list unavailable: ",
                reason.as_str(),
            ),
        }
    }
}

/// The listing error of a skill-management error.
pub open spec fn list_error_of(error: SkillManagementErrorView) -> RebornSkillListErrorView {
    match error.kind {
        SkillManagementErrorKind::FilesystemDenied => RebornSkillListErrorView::AccessDenied,
        SkillManagementErrorKind::Resource => RebornSkillListErrorView::Unavailable {
            reason: "skill management resource unavailable"@,
        },
        _ => RebornSkillListErrorView::InvalidRequest {
            reason: match error.reason {
                Some(reason) => reason,
                None => "skill management request rejected"@,
            },
        },
    }
}

/// The listing error of a scoped skill-management error.
pub open spec fn local_list_error_of(error: ScopedSkillManagementErrorView) -> RebornSkillListErrorView {
    match error {
        ScopedSkillManagementErrorView::InvalidContext { reason } =>
            RebornSkillListErrorView::InvalidRequest { reason },
        ScopedSkillManagementErrorView::Skill(error) => list_error_of(error),
    }
}

/// The listing error of a skill-management error.
pub fn map_skill_management_error(error: SkillManagementError) -> (r: RebornSkillListError)
    ensures
        r@ == list_error_of(error@),
{
    match error.kind {
        SkillManagementErrorKind::FilesystemDenied => RebornSkillListError::AccessDenied,
        SkillManagementErrorKind::Resource => RebornSkillListError::Unavailable {
            reason: "skill management resource unavailable".to_string(),
        },
        _ => RebornSkillListError::InvalidRequest {
            reason: match error.reason {
                Some(reason) => reason,
                None => "skill management request rejected".to_string(),
            },
        },
    }
}

/// The listing error of a scoped skill-management error.
pub fn map_local_skill_management_error(error: ScopedSkillManagementError) -> (r:
    RebornSkillListError)
    ensures
        r@ == local_list_error_of(error@),
{
    match error {
        ScopedSkillManagementError::InvalidContext { reason } =>
            RebornSkillListError::InvalidRequest { reason },
        ScopedSkillManagementError::Skill(error) => map_skill_management_error(error),
    }
}

/// Whether some skill has a name.
pub open spec fn names(skills: Seq<SkillSummaryView>, name: Seq<char>) -> bool {
    exists|k: int| 0 <= k < skills.len() && (#[trigger] skills[k]).name == name
}

/// Whether a stored skill is listed for its owner: everything but a system skill
/// that comes with the host anyway.
pub open spec fn listed_for_owner(bundled: Seq<SkillSummaryView>) -> spec_fn(SkillSummaryView) -> bool {
    |skill: SkillSummaryView|
        !(skill.source == ManagedSkillSource::System && names(bundled, skill.name))
}

/// The skills of an owner, in listing order.
pub open spec fn owner_skills(
    stored: Seq<SkillSummaryView>,
    bundled: Seq<SkillSummaryView>,
) -> Seq<SkillSummaryView> {
    sorted_skills(stored.filter(listed_for_owner(bundled)))
}

fn named(skills: &Vec<SkillSummary>, name: &String) -> (r: bool)
    ensures
        r == names(skills.deep_view(), name@),
{
    let ghost views = skills.deep_view();
    let mut i: usize = 0;
    while i < skills.len()
        invariant
            views == skills.deep_view(),
            i <= skills@.len(),
            forall|k: int| 0 <= k < i ==> (#[trigger] views[k]).name != name@,
        decreases skills@.len() - i,
    {
        assert(views[i as int] == skills@[i as int]@);
        if skills[i].name == *name {
            return true;
        }
        i = i + 1;
    }
    false
}

/// The skills stored for one owner. `stored` is what skill management listed,
/// `bundled` the skills that come with the host.
///
/// A stored system skill that comes with the host is left out: the host's own
/// copy counts, and [`list_reborn_bundled_skills`] lists it once for everyone.
pub fn list_reborn_local_skills_for_owner(
    stored: Result<Vec<SkillSummary>, ScopedSkillManagementError>,
    bundled: Result<Vec<SkillSummary>, RebornBuildError>,
) -> (r: Result<Vec<SkillSummary>, RebornSkillListError>)
    ensures
        outcome(r) == match outcome(stored) {
            Err(error) => Err::<Seq<SkillSummaryView>, RebornSkillListErrorView>(
                local_list_error_of(error),
            ),
            Ok(skills) => match outcome(bundled) {
                Err(error) => Err(RebornSkillListErrorView::Build(error)),
                Ok(embedded) => Ok(owner_skills(skills, embedded)),
            },
        },
{
    let skills = match stored {
        Ok(skills) => skills,
        Err(error) => return Err(map_local_skill_management_error(error)),
    };
    let embedded = match bundled {
        Ok(embedded) => embedded,
        Err(error) => return Err(RebornSkillListError::Build(error)),
    };
    let ghost views = skills.deep_view();
    let ghost keep = listed_for_owner(embedded.deep_view());
    let mut kept: Vec<SkillSummary> = Vec::new();
    let mut i: usize = 0;
    proof {
        reveal(Seq::filter);
    }
    assert(kept.deep_view() =~= views.take(0).filter(keep));
    while i < skills.len()
        invariant
            views == skills.deep_view(),
            keep == listed_for_owner(embedded.deep_view()),
            i <= skills@.len(),
            kept.deep_view() == views.take(i as int).filter(keep),
        decreases skills@.len() - i,
    {
        let skill = &skills[i];
        let ghost before = kept.deep_view();
        proof {
            reveal(Seq::filter);
            assert(views.take(i + 1).drop_last() =~= views.take(i as int));
            assert(views.take(i + 1).last() == skill@);
        }
        let covered = skill.source == ManagedSkillSource::System && named(&embedded, &skill.name);
        if !covered {
            let copy = skill.clone();
            let ghost added = copy@;
            kept.push(copy);
            assert(kept.deep_view() =~= before.push(added));
        }
        i = i + 1;
    }
    assert(views.take(views.len() as int) =~= views);
    sort_skills(&mut kept);
    Ok(kept)
}

/// The skills that come with the host, in listing order. They belong to no
/// owner.
pub fn list_reborn_bundled_skills(bundled: Result<Vec<SkillSummary>, RebornBuildError>) -> (r:
    Result<Vec<SkillSummary>, RebornSkillListError>)
    ensures
        outcome(r) == match outcome(bundled) {
            Err(error) => Err::<Seq<SkillSummaryView>, RebornSkillListErrorView>(
                RebornSkillListErrorView::Build(error),
            ),
            Ok(skills) => Ok(sorted_skills(skills)),
        },
{
    match bundled {
        Err(error) => Err(RebornSkillListError::Build(error)),
        Ok(embedded) => {
            let mut skills = embedded;
            sort_skills(&mut skills);
            Ok(skills)
        },
    }
}

/// A skill is listed for its owner exactly if it is stored for them and is not a
/// system skill that comes with the host.
pub proof fn law_owner_listing_is_exact(
    stored: Seq<SkillSummaryView>,
    bundled: Seq<SkillSummaryView>,
    skill: SkillSummaryView,
)
    ensures
        owner_skills(stored, bundled).contains(skill) <==> stored.contains(skill) && !(skill.source
            == ManagedSkillSource::System && names(bundled, skill.name)),
{
    let keep = listed_for_owner(bundled);
    let kept = stored.filter(keep);
    law_sorting_keeps_items(kept, skill_key(), skill);
    if kept.contains(skill) {
        stored.lemma_filter_contains_rev(keep, skill);
        let k = choose|k: int| 0 <= k < kept.len() && kept[k] == skill;
        stored.lemma_filter_pred(keep, k);
    }
    if stored.contains(skill) && keep(skill) {
        let k = choose|k: int| 0 <= k < stored.len() && stored[k] == skill;
        stored.lemma_filter_contains(keep, k);
    }
}

/// A user's skill that shares its name with one of the host's is listed, and so
/// is the host's.
pub proof fn law_shadowing_skills_both_survive(
    stored: Seq<SkillSummaryView>,
    bundled: Seq<SkillSummaryView>,
    own: SkillSummaryView,
    embedded: SkillSummaryView,
)
    requires
        stored.contains(own),
        own.source == ManagedSkillSource::User,
        bundled.contains(embedded),
        own.name == embedded.name,
    ensures
        owner_skills(stored, bundled).contains(own),
        sorted_skills(bundled).contains(embedded),
{
    law_owner_listing_is_exact(stored, bundled, own);
    law_sorting_keeps_items(bundled, skill_key(), embedded);
}

/// A listing that skill management refuses says why: access was denied, a resource was
/// not there, or the request was invalid, with the reason that was given.
pub proof fn law_listing_errors_say_why(error: SkillManagementErrorView, reason: Seq<char>)
    ensures
        local_list_error_of(ScopedSkillManagementErrorView::InvalidContext { reason }) == (
        RebornSkillListErrorView::InvalidRequest { reason }),
        local_list_error_of(ScopedSkillManagementErrorView::Skill(error)) == list_error_of(error),
        list_error_of(error) is AccessDenied <==> error.kind
            == SkillManagementErrorKind::FilesystemDenied,
        list_error_of(error) is Unavailable <==> error.kind == SkillManagementErrorKind::Resource,
        list_error_of(error) matches RebornSkillListErrorView::Unavailable { reason: said } ==> said
            == "skill management resource unavailable"@,
        list_error_of(error) matches RebornSkillListErrorView::InvalidRequest { reason: said } ==> {
            &&& error.reason matches Some(given) ==> said == given
            &&& error.reason is None ==> said == "skill management request rejected"@
        },
        !(list_error_of(error) is Build),
{
}

/// The listing of an owner holds each stored skill that is listed, as often as it is
/// stored, by name and then by source.
pub proof fn law_owner_listing_is_in_order(
    stored: Seq<SkillSummaryView>,
    bundled: Seq<SkillSummaryView>,
    skill: SkillSummaryView,
)
    ensures
        ({
            let listed = owner_skills(stored, bundled);
            let covered = skill.source == ManagedSkillSource::System && exists|k: int|
                0 <= k < bundled.len() && (#[trigger] bundled[k]).name == skill.name;
            &&& owner_skills(Seq::empty(), bundled).len() == 0
            &&& covered ==> owner_skills(stored.push(skill), bundled) == listed
            &&& !covered ==> owner_skills(stored.push(skill), bundled).len() == listed.len() + 1
            &&& forall|i: int, j: int|
                0 <= i < j < listed.len() ==> !text_before(
                    (#[trigger] listed[j]).name,
                    (#[trigger] listed[i]).name,
                )
        }),
{
    let keep = listed_for_owner(bundled);
    reveal(Seq::filter);
    assert(stored.push(skill).drop_last() =~= stored);
    law_skills_are_listed_by_name_then_source(Seq::<SkillSummaryView>::empty().filter(keep), skill);
    law_skills_are_listed_by_name_then_source(stored.filter(keep), skill);
    law_skills_are_listed_by_name_then_source(stored.push(skill).filter(keep), skill);
}

} // verus!
