//! The `skills list` command: which skills it shows, and how.

use vstd::prelude::*;

use crate::readiness::RebornCompositionProfile;
use crate::skills::listing::{
    RebornBuildError, RebornBuildErrorView, RebornSkillListError, RebornSkillListErrorView,
};
use crate::skills::owners::{SkillOwner, SkillOwnerView};
use crate::skills::{source_name, SkillSummary, SkillSummaryView};
use crate::text::{
    decimal, decimal_text, join, joined, joined3, joined_with, same_text, terminal_safe,
    terminal_safe_text,
};

verus! {

/// Which owners a listing is narrowed to.
#[derive(Debug, PartialEq, Eq)]
pub struct SkillOwnerFilter {
    pub tenant: Option<String>,
    pub user: Option<String>,
}

/// The mathematical value of a [`SkillOwnerFilter`].
#[verifier::ext_equal]
pub struct SkillOwnerFilterView {
    pub tenant: Option<Seq<char>>,
    pub user: Option<Seq<char>>,
}

impl View for SkillOwnerFilter {
    type V = SkillOwnerFilterView;

    open spec fn view(&self) -> SkillOwnerFilterView {
        SkillOwnerFilterView {
            tenant: self.tenant.deep_view(),
            user: self.user.deep_view(),
        }
    }
}

impl DeepView for SkillOwnerFilter {
    type V = SkillOwnerFilterView;

    open spec fn deep_view(&self) -> SkillOwnerFilterView {
        self@
    }
}

impl Clone for SkillOwnerFilter {
    fn clone(&self) -> (r: Self)
        ensures
            r@ == self@,
    {
        let r = SkillOwnerFilter {
            tenant: self.tenant.clone(),
            user: self.user.clone(),
        };
        assert(r.tenant.deep_view() =~= self.tenant.deep_view());
        assert(r.user.deep_view() =~= self.user.deep_view());
        r
    }
}

/// The owner of a group of skills.
#[derive(Debug, PartialEq, Eq)]
pub struct SkillGroupOwner {
    pub tenant: String,
    pub user: String,
}

/// The mathematical value of a [`SkillGroupOwner`].
#[verifier::ext_equal]
pub struct SkillGroupOwnerView {
    pub tenant: Seq<char>,
    pub user: Seq<char>,
}

impl View for SkillGroupOwner {
    type V = SkillGroupOwnerView;

    open spec fn view(&self) -> SkillGroupOwnerView {
        SkillGroupOwnerView {
            tenant: self.tenant@,
            user: self.user@,
        }
    }
}

impl DeepView for SkillGroupOwner {
    type V = SkillGroupOwnerView;

    open spec fn deep_view(&self) -> SkillGroupOwnerView {
        self@
    }
}

impl Clone for SkillGroupOwner {
    fn clone(&self) -> (r: Self)
        ensures
            r@ == self@,
    {
        SkillGroupOwner {
            tenant: self.tenant.clone(),
            user: self.user.clone(),
        }
    }
}

/// Skills of one owner. Those that come with the host have none.
#[derive(Debug, PartialEq, Eq)]
pub struct SkillGroup {
    pub owner: Option<SkillGroupOwner>,
    pub skills: Vec<SkillSummary>,
}

/// The mathematical value of a [`SkillGroup`].
#[verifier::ext_equal]
pub struct SkillGroupView {
    pub owner: Option<SkillGroupOwnerView>,
    pub skills: Seq<SkillSummaryView>,
}

impl View for SkillGroup {
    type V = SkillGroupView;

    open spec fn view(&self) -> SkillGroupView {
        SkillGroupView {
            owner: self.owner.deep_view(),
            skills: self.skills.deep_view(),
        }
    }
}

impl DeepView for SkillGroup {
    type V = SkillGroupView;

    open spec fn deep_view(&self) -> SkillGroupView {
        self@
    }
}

impl Clone for SkillGroup {
    fn clone(&self) -> (r: Self)
        ensures
            r@ == self@,
    {
        let r = SkillGroup {
            owner: self.owner.clone(),
            skills: self.skills.clone(),
        };
        assert(r.owner.deep_view() =~= self.owner.deep_view());
        assert(r.skills.deep_view() =~= self.skills.deep_view());
        r
    }
}

/// What is known of a list of skills.
#[derive(Debug, PartialEq, Eq)]
pub enum ListAnswer {
    Unasked,
    Failed { error: RebornSkillListError },
    Listed { skills: Vec<SkillSummary> },
}

/// The mathematical value of a [`ListAnswer`].
#[verifier::ext_equal]
pub enum ListAnswerView {
    Unasked,
    Failed { error: RebornSkillListErrorView },
    Listed { skills: Seq<SkillSummaryView> },
}

impl View for ListAnswer {
    type V = ListAnswerView;

    open spec fn view(&self) -> ListAnswerView {
        match self {
            ListAnswer::Unasked => ListAnswerView::Unasked,
            ListAnswer::Failed { error } => ListAnswerView::Failed { error: error@ },
            ListAnswer::Listed { skills } => ListAnswerView::Listed { skills: skills.deep_view() },
        }
    }
}

impl DeepView for ListAnswer {
    type V = ListAnswerView;

    open spec fn deep_view(&self) -> ListAnswerView {
        self@
    }
}

impl Clone for ListAnswer {
    fn clone(&self) -> (r: Self)
        ensures
            r@ == self@,
    {
        match self {
            ListAnswer::Unasked => ListAnswer::Unasked,
            ListAnswer::Failed { error } => ListAnswer::Failed { error: error.clone() },
            ListAnswer::Listed { skills } => {
                let skills_copy = skills.clone();
                assert(skills_copy.deep_view() =~= skills.deep_view());
                ListAnswer::Listed { skills: skills_copy }
            },
        }
    }
}

/// An owner with what is known of their skills.
#[derive(Debug, PartialEq, Eq)]
pub struct OwnerSkills {
    pub owner: SkillOwner,
    pub skills: ListAnswer,
}

/// The mathematical value of a [`OwnerSkills`].
#[verifier::ext_equal]
pub struct OwnerSkillsView {
    pub owner: SkillOwnerView,
    pub skills: ListAnswerView,
}

impl View for OwnerSkills {
    type V = OwnerSkillsView;

    open spec fn view(&self) -> OwnerSkillsView {
        OwnerSkillsView {
            owner: self.owner@,
            skills: self.skills@,
        }
    }
}

impl DeepView for OwnerSkills {
    type V = OwnerSkillsView;

    open spec fn deep_view(&self) -> OwnerSkillsView {
        self@
    }
}

impl Clone for OwnerSkills {
    fn clone(&self) -> (r: Self)
        ensures
            r@ == self@,
    {
        OwnerSkills {
            owner: self.owner.clone(),
            skills: self.skills.clone(),
        }
    }
}

/// What is known of the store.
#[derive(Debug, PartialEq, Eq)]
pub enum SourceAnswer {
    Unasked,
    Failed { error: RebornBuildError },
    /// There is none yet.
    Missing,
    Open { owners: Vec<OwnerSkills> },
}

/// The mathematical value of a [`SourceAnswer`].
#[verifier::ext_equal]
pub enum SourceAnswerView {
    Unasked,
    Failed { error: RebornBuildErrorView },
    Missing,
    Open { owners: Seq<OwnerSkillsView> },
}

impl View for SourceAnswer {
    type V = SourceAnswerView;

    open spec fn view(&self) -> SourceAnswerView {
        match self {
            SourceAnswer::Unasked => SourceAnswerView::Unasked,
            SourceAnswer::Failed { error } => SourceAnswerView::Failed { error: error@ },
            SourceAnswer::Missing => SourceAnswerView::Missing,
            SourceAnswer::Open { owners } => SourceAnswerView::Open { owners: owners.deep_view() },
        }
    }
}

impl DeepView for SourceAnswer {
    type V = SourceAnswerView;

    open spec fn deep_view(&self) -> SourceAnswerView {
        self@
    }
}

impl Clone for SourceAnswer {
    fn clone(&self) -> (r: Self)
        ensures
            r@ == self@,
    {
        match self {
            SourceAnswer::Unasked => SourceAnswer::Unasked,
            SourceAnswer::Failed { error } => SourceAnswer::Failed { error: error.clone() },
            SourceAnswer::Missing => SourceAnswer::Missing,
            SourceAnswer::Open { owners } => {
                let owners_copy = owners.clone();
                assert(owners_copy.deep_view() =~= owners.deep_view());
                SourceAnswer::Open { owners: owners_copy }
            },
        }
    }
}

/// Why the configured identity is not valid, part by part. `None` is valid.
#[derive(Debug, PartialEq, Eq)]
pub struct IdentityCheck {
    pub tenant: Option<String>,
    pub agent: Option<String>,
    pub owner: Option<String>,
}

/// The mathematical value of a [`IdentityCheck`].
#[verifier::ext_equal]
pub struct IdentityCheckView {
    pub tenant: Option<Seq<char>>,
    pub agent: Option<Seq<char>>,
    pub owner: Option<Seq<char>>,
}

impl View for IdentityCheck {
    type V = IdentityCheckView;

    open spec fn view(&self) -> IdentityCheckView {
        IdentityCheckView {
            tenant: self.tenant.deep_view(),
            agent: self.agent.deep_view(),
            owner: self.owner.deep_view(),
        }
    }
}

impl DeepView for IdentityCheck {
    type V = IdentityCheckView;

    open spec fn deep_view(&self) -> IdentityCheckView {
        self@
    }
}

impl Clone for IdentityCheck {
    fn clone(&self) -> (r: Self)
        ensures
            r@ == self@,
    {
        let r = IdentityCheck {
            tenant: self.tenant.clone(),
            agent: self.agent.clone(),
            owner: self.owner.clone(),
        };
        assert(r.tenant.deep_view() =~= self.tenant.deep_view());
        assert(r.agent.deep_view() =~= self.agent.deep_view());
        assert(r.owner.deep_view() =~= self.owner.deep_view());
        r
    }
}

/// Why no groups could be collected.
#[derive(Debug, PartialEq, Eq)]
pub enum SkillGroupsError {
    /// The configured identity is not valid.
    Identity { message: String },
    /// A list of skills failed.
    List(RebornSkillListError),
    /// The store could not be opened.
    Open(RebornBuildError),
}

/// The mathematical value of a [`SkillGroupsError`].
#[verifier::ext_equal]
pub enum SkillGroupsErrorView {
    Identity { message: Seq<char> },
    List(RebornSkillListErrorView),
    Open(RebornBuildErrorView),
}

impl View for SkillGroupsError {
    type V = SkillGroupsErrorView;

    open spec fn view(&self) -> SkillGroupsErrorView {
        match self {
            SkillGroupsError::Identity { message } => SkillGroupsErrorView::Identity {
                message: message@,
            },
            SkillGroupsError::List(a) => SkillGroupsErrorView::List(a@),
            SkillGroupsError::Open(a) => SkillGroupsErrorView::Open(a@),
        }
    }
}

impl DeepView for SkillGroupsError {
    type V = SkillGroupsErrorView;

    open spec fn deep_view(&self) -> SkillGroupsErrorView {
        self@
    }
}

impl Clone for SkillGroupsError {
    fn clone(&self) -> (r: Self)
        ensures
            r@ == self@,
    {
        match self {
            SkillGroupsError::Identity { message } => SkillGroupsError::Identity {
                message: message.clone(),
            },
            SkillGroupsError::List(a) => SkillGroupsError::List(a.clone()),
            SkillGroupsError::Open(a) => SkillGroupsError::Open(a.clone()),
        }
    }
}

/// What collecting groups comes to.
#[derive(Debug, PartialEq, Eq)]
pub enum GroupsOutcome {
    /// The skills that come with the host are needed.
    AskBundled,
    /// The store is needed.
    AskSource,
    /// The skills of this owner are needed.
    AskOwner { index: usize },
    Failed { error: SkillGroupsError },
    Groups { groups: Vec<SkillGroup> },
}

/// The mathematical value of a [`GroupsOutcome`].
#[verifier::ext_equal]
pub enum GroupsOutcomeView {
    AskBundled,
    AskSource,
    AskOwner { index: usize },
    Failed { error: SkillGroupsErrorView },
    Groups { groups: Seq<SkillGroupView> },
}

impl View for GroupsOutcome {
    type V = GroupsOutcomeView;

    open spec fn view(&self) -> GroupsOutcomeView {
        match self {
            GroupsOutcome::AskBundled => GroupsOutcomeView::AskBundled,
            GroupsOutcome::AskSource => GroupsOutcomeView::AskSource,
            GroupsOutcome::AskOwner { index } => GroupsOutcomeView::AskOwner { index: *index },
            GroupsOutcome::Failed { error } => GroupsOutcomeView::Failed { error: error@ },
            GroupsOutcome::Groups { groups } => GroupsOutcomeView::Groups {
                groups: groups.deep_view(),
            },
        }
    }
}

impl DeepView for GroupsOutcome {
    type V = GroupsOutcomeView;

    open spec fn deep_view(&self) -> GroupsOutcomeView {
        self@
    }
}

impl Clone for GroupsOutcome {
    fn clone(&self) -> (r: Self)
        ensures
            r@ == self@,
    {
        match self {
            GroupsOutcome::AskBundled => GroupsOutcome::AskBundled,
            GroupsOutcome::AskSource => GroupsOutcome::AskSource,
            GroupsOutcome::AskOwner { index } => GroupsOutcome::AskOwner { index: *index },
            GroupsOutcome::Failed { error } => GroupsOutcome::Failed { error: error.clone() },
            GroupsOutcome::Groups { groups } => {
                let groups_copy = groups.clone();
                assert(groups_copy.deep_view() =~= groups.deep_view());
                GroupsOutcome::Groups { groups: groups_copy }
            },
        }
    }
}

impl SkillOwnerFilterView {
    /// Whether nothing is narrowed.
    pub open spec fn is_open(self) -> bool {
        self.tenant is None && self.user is None
    }

    /// Whether an owner is within the filter.
    pub open spec fn admits(self, tenant: Seq<char>, user: Seq<char>) -> bool {
        &&& self.tenant matches Some(wanted) ==> wanted == tenant
        &&& self.user matches Some(wanted) ==> wanted == user
    }

    /// The filter in words.
    pub open spec fn words(self) -> Seq<char> {
        match (self.tenant, self.user) {
            (Some(tenant), Some(user)) => "tenant "@ + tenant + " / user "@ + user,
            (Some(tenant), None) => "tenant "@ + tenant,
            (None, Some(user)) => "user "@ + user,
            (None, None) => "no filter"@,
        }
    }
}

impl SkillOwnerFilter {
    /// Whether nothing is narrowed.
    pub fn is_empty(&self) -> (r: bool)
        ensures
            r == self@.is_open(),
    {
        self.tenant.is_none() && self.user.is_none()
    }

    /// Whether an owner is within the filter.
    pub fn matches(&self, tenant: &str, user: &str) -> (r: bool)
        ensures
            r == self@.admits(tenant@, user@),
    {
        let tenant_matches = match &self.tenant {
            Some(wanted) => same_text(wanted.as_str(), tenant),
            None => true,
        };
        let user_matches = match &self.user {
            Some(wanted) => same_text(wanted.as_str(), user),
            None => true,
        };
        tenant_matches && user_matches
    }

    /// The filter in words.
    pub fn describe(&self) -> (r: String)
        ensures
            r@ == self@.words(),
    {
        match (&self.tenant, &self.user) {
            (Some(tenant), Some(user)) => {
                let head = joined3("tenant ", tenant.as_str(), " / user ");
                joined(head.as_str(), user.as_str())
            },
            (Some(tenant), None) => joined("tenant ", tenant.as_str()),
            (None, Some(user)) => joined("user ", user.as_str()),
            (None, None) => "no filter".to_string(),
        }
    }
}

/// The group of an owner.
pub open spec fn group_of(owner: SkillOwnerView, skills: Seq<SkillSummaryView>) -> SkillGroupView {
    SkillGroupView {
        owner: Some(SkillGroupOwnerView { tenant: owner.tenant_id, user: owner.user_id }),
        skills,
    }
}

/// The groups after the owners from `at` on were visited: one for each owner
/// within the filter, also for one without skills.
pub open spec fn owner_groups(
    filter: SkillOwnerFilterView,
    owners: Seq<OwnerSkillsView>,
    at: nat,
    groups: Seq<SkillGroupView>,
) -> GroupsOutcomeView
    decreases owners.len() - at,
{
    if at >= owners.len() {
        GroupsOutcomeView::Groups { groups }
    } else {
        let here = owners[at as int];
        if !filter.admits(here.owner.tenant_id, here.owner.user_id) {
            owner_groups(filter, owners, at + 1, groups)
        } else {
            match here.skills {
                ListAnswerView::Unasked => GroupsOutcomeView::AskOwner { index: at as usize },
                ListAnswerView::Failed { error } => GroupsOutcomeView::Failed {
                    error: SkillGroupsErrorView::List(error),
                },
                ListAnswerView::Listed { skills } => owner_groups(
                    filter,
                    owners,
                    at + 1,
                    groups.push(group_of(here.owner, skills)),
                ),
            }
        }
    }
}

/// Why the configured identity is not valid, if it is not.
pub open spec fn identity_error(identity: IdentityCheckView) -> Option<Seq<char>> {
    match (identity.tenant, identity.agent, identity.owner) {
        (Some(error), _, _) => Some("invalid runtime tenant identity: "@ + error),
        (None, Some(error), _) => Some("invalid runtime agent identity: "@ + error),
        (None, None, Some(error)) => Some("invalid runtime owner identity: "@ + error),
        (None, None, None) => None,
    }
}

/// The groups once those that come with the host are settled.
pub open spec fn store_groups(
    filter: SkillOwnerFilterView,
    identity: IdentityCheckView,
    source: SourceAnswerView,
    groups: Seq<SkillGroupView>,
) -> GroupsOutcomeView {
    match identity_error(identity) {
        Some(message) => GroupsOutcomeView::Failed {
            error: SkillGroupsErrorView::Identity { message },
        },
        None => match source {
            SourceAnswerView::Unasked => GroupsOutcomeView::AskSource,
            SourceAnswerView::Failed { error } => GroupsOutcomeView::Failed {
                error: SkillGroupsErrorView::Open(error),
            },
            SourceAnswerView::Missing => GroupsOutcomeView::Groups { groups },
            SourceAnswerView::Open { owners } => owner_groups(filter, owners, 0, groups),
        },
    }
}

/// The groups of a listing: first the skills that come with the host, unless the
/// listing is narrowed to an owner; then one group for each owner of the store.
pub open spec fn groups_of(
    filter: SkillOwnerFilterView,
    bundled: ListAnswerView,
    identity: IdentityCheckView,
    source: SourceAnswerView,
) -> GroupsOutcomeView {
    if filter.is_open() {
        match bundled {
            ListAnswerView::Unasked => GroupsOutcomeView::AskBundled,
            ListAnswerView::Failed { error } => GroupsOutcomeView::Failed {
                error: SkillGroupsErrorView::List(error),
            },
            ListAnswerView::Listed { skills } => store_groups(
                filter,
                identity,
                source,
                seq![SkillGroupView { owner: None, skills }],
            ),
        }
    } else {
        store_groups(filter, identity, source, Seq::empty())
    }
}

fn collect_owner_groups(
    filter: &SkillOwnerFilter,
    owners: &Vec<OwnerSkills>,
    collected: Vec<SkillGroup>,
) -> (r: GroupsOutcome)
    ensures
        r@ == owner_groups(filter@, owners.deep_view(), 0, collected.deep_view()),
{
    let mut groups = collected;
    let ghost start = groups.deep_view();
    let ghost views = owners.deep_view();
    let mut i: usize = 0;
    while i < owners.len()
        invariant
            views == owners.deep_view(),
            start == collected.deep_view(),
            i <= owners@.len(),
            owner_groups(filter@, views, 0, start) == owner_groups(
                filter@,
                views,
                i as nat,
                groups.deep_view(),
            ),
        decreases owners@.len() - i,
    {
        let here = &owners[i];
        let ghost before = groups.deep_view();
        assert(views[i as int] == here@);
        if filter.matches(here.owner.tenant_id.as_str(), here.owner.user_id.as_str()) {
            match &here.skills {
                ListAnswer::Unasked => return GroupsOutcome::AskOwner { index: i },
                ListAnswer::Failed { error } => {
                    return GroupsOutcome::Failed { error: SkillGroupsError::List(error.clone()) };
                },
                ListAnswer::Listed { skills } => {
                    let copy = skills.clone();
                    assert(copy.deep_view() =~= skills.deep_view());
                    let group = SkillGroup {
                        owner: Some(
                            SkillGroupOwner {
                                tenant: here.owner.tenant_id.clone(),
                                user: here.owner.user_id.clone(),
                            },
                        ),
                        skills: copy,
                    };
                    let ghost added = group@;
                    groups.push(group);
                    assert(groups.deep_view() =~= before.push(added));
                },
            }
        }
        i = i + 1;
    }
    GroupsOutcome::Groups { groups }
}

/// Collects the groups of a listing from what is known so far.
pub fn collect_skill_groups(
    filter: &SkillOwnerFilter,
    bundled: &ListAnswer,
    identity: &IdentityCheck,
    source: &SourceAnswer,
) -> (r: GroupsOutcome)
    ensures
        r@ == groups_of(filter@, bundled@, identity@, source@),
{
    let mut groups: Vec<SkillGroup> = Vec::new();
    assert(groups.deep_view() =~= Seq::empty());
    if filter.is_empty() {
        match bundled {
            ListAnswer::Unasked => return GroupsOutcome::AskBundled,
            ListAnswer::Failed { error } => {
                return GroupsOutcome::Failed { error: SkillGroupsError::List(error.clone()) };
            },
            ListAnswer::Listed { skills } => {
                let copy = skills.clone();
                assert(copy.deep_view() =~= skills.deep_view());
                groups.push(SkillGroup { owner: None, skills: copy });
                assert(groups.deep_view() =~= seq![
                    SkillGroupView { owner: None, skills: skills.deep_view() },
                ]);
            },
        }
    }
    let invalid = match (&identity.tenant, &identity.agent, &identity.owner) {
        (Some(error), _, _) => Some(
            joined("invalid runtime tenant identity: ", error.as_str()),
        ),
        (None, Some(error), _) => Some(joined("invalid runtime agent identity: ", error.as_str())),
        (None, None, Some(error)) => Some(
            joined("invalid runtime owner identity: ", error.as_str()),
        ),
        (None, None, None) => None,
    };
    if let Some(message) = invalid {
        return GroupsOutcome::Failed { error: SkillGroupsError::Identity { message } };
    }
    match source {
        SourceAnswer::Unasked => GroupsOutcome::AskSource,
        SourceAnswer::Failed { error } => GroupsOutcome::Failed {
            error: SkillGroupsError::Open(error.clone()),
        },
        SourceAnswer::Missing => GroupsOutcome::Groups { groups },
        SourceAnswer::Open { owners } => collect_owner_groups(filter, owners, groups),
    }
}

/// The heading of a group.
pub open spec fn heading_of(group: SkillGroupView) -> Seq<char> {
    match group.owner {
        None => "bundled"@,
        Some(owner) => "tenant "@ + terminal_safe(owner.tenant) + " / user "@ + terminal_safe(
            owner.user,
        ),
    }
}

/// The heading of a group.
pub fn group_heading(group: &SkillGroup) -> (r: String)
    ensures
        r@ == heading_of(group@),
{
    match &group.owner {
        None => "bundled".to_string(),
        Some(owner) => {
            let head = joined3(
                "tenant ",
                terminal_safe_text(owner.tenant.as_str()).as_str(),
                " / user ",
            );
            joined(head.as_str(), terminal_safe_text(owner.user.as_str()).as_str())
        },
    }
}

/// Whether a text is not empty.
pub open spec fn not_blank() -> spec_fn(Seq<char>) -> bool {
    |text: Seq<char>| text.len() > 0
}

/// The values of a list field, safe and without empty ones.
pub open spec fn safe_values(values: Seq<Seq<char>>) -> Seq<Seq<char>> {
    values.map_values(|value: Seq<char>| terminal_safe(value)).filter(not_blank())
}

/// The line of a list field, if it has one.
pub open spec fn list_field(label: Seq<char>, values: Seq<Seq<char>>) -> Seq<Seq<char>> {
    if safe_values(values).len() == 0 {
        Seq::empty()
    } else {
        seq!["  "@ + label + ": "@ + joined_with(safe_values(values), ", "@)]
    }
}

/// The line of a text field, if it has one.
pub open spec fn text_field(label: Seq<char>, value: Seq<char>) -> Seq<Seq<char>> {
    if value.len() == 0 {
        Seq::empty()
    } else {
        seq!["  "@ + label + ": "@ + terminal_safe(value)]
    }
}

/// The lines of a skill.
pub open spec fn skill_lines_of(skill: SkillSummaryView, verbose: bool) -> Seq<Seq<char>> {
    seq!["- "@ + terminal_safe(skill.name) + " ("@ + source_name(skill.source) + ")"@]
        + text_field("description"@, skill.description) + if verbose {
        text_field("version"@, skill.version) + list_field("keywords"@, skill.keywords)
            + list_field("tags"@, skill.tags) + list_field(
            "requires_skills"@,
            skill.requires_skills,
        )
    } else {
        Seq::empty()
    }
}

fn safe_list(values: &Vec<String>) -> (r: Vec<String>)
    ensures
        r.deep_view() == safe_values(values.deep_view()),
{
    let ghost safe = values.deep_view().map_values(|value: Seq<char>| terminal_safe(value));
    let mut out: Vec<String> = Vec::new();
    let mut i: usize = 0;
    proof {
        reveal(Seq::filter);
    }
    assert(out.deep_view() =~= safe.take(0).filter(not_blank()));
    while i < values.len()
        invariant
            safe == values.deep_view().map_values(|value: Seq<char>| terminal_safe(value)),
            i <= values@.len(),
            out.deep_view() == safe.take(i as int).filter(not_blank()),
        decreases values@.len() - i,
    {
        let ghost before = out.deep_view();
        let value = terminal_safe_text(values[i].as_str());
        let ghost added = value@;
        proof {
            reveal(Seq::filter);
            assert(values.deep_view()[i as int] == values@[i as int]@);
            assert(safe[i as int] == added);
            assert(safe.take(i + 1).drop_last() =~= safe.take(i as int));
            assert(safe.take(i + 1).last() == added);
        }
        if !value.as_str().is_empty() {
            out.push(value);
            assert(out.deep_view() =~= before.push(added));
        }
        i = i + 1;
    }
    assert(safe.take(safe.len() as int) =~= safe);
    out
}

/// Adds the line of a list field.
fn add_list_field(lines: &mut Vec<String>, label: &str, values: &Vec<String>)
    ensures
        final(lines).deep_view() == old(lines).deep_view() + list_field(
            label@,
            values.deep_view(),
        ),
{
    let safe = safe_list(values);
    let ghost before = lines.deep_view();
    assert(safe.deep_view().len() == safe@.len());
    if !safe.is_empty() {
        let head = joined3("  ", label, ": ");
        let line = joined(head.as_str(), join(&safe, ", ").as_str());
        let ghost added = line@;
        lines.push(line);
        assert(lines.deep_view() =~= before.push(added));
    }
    assert(lines.deep_view() =~= before + list_field(label@, values.deep_view()));
}

/// Adds the line of a text field.
fn add_text_field(lines: &mut Vec<String>, label: &str, value: &String)
    ensures
        final(lines).deep_view() == old(lines).deep_view() + text_field(label@, value@),
{
    let ghost before = lines.deep_view();
    if !value.as_str().is_empty() {
        let head = joined3("  ", label, ": ");
        let line = joined(head.as_str(), terminal_safe_text(value.as_str()).as_str());
        let ghost added = line@;
        lines.push(line);
        assert(lines.deep_view() =~= before.push(added));
    }
    assert(lines.deep_view() =~= before + text_field(label@, value@));
}

/// Adds the lines of a skill.
pub fn add_skill_lines(lines: &mut Vec<String>, skill: &SkillSummary, verbose: bool)
    ensures
        final(lines).deep_view() == old(lines).deep_view() + skill_lines_of(skill@, verbose),
{
    let ghost before = lines.deep_view();
    let head = joined3("- ", terminal_safe_text(skill.name.as_str()).as_str(), " (");
    let line = joined3(head.as_str(), skill.source.as_str(), ")");
    let ghost first = line@;
    lines.push(line);
    assert(lines.deep_view() =~= before.push(first));
    add_text_field(lines, "description", &skill.description);
    if verbose {
        add_text_field(lines, "version", &skill.version);
        add_list_field(lines, "keywords", &skill.keywords);
        add_list_field(lines, "tags", &skill.tags);
        add_list_field(lines, "requires_skills", &skill.requires_skills);
    }
    assert(lines.deep_view() =~= before + skill_lines_of(skill@, verbose));
}

/// The lines of some skills.
pub open spec fn skills_lines(skills: Seq<SkillSummaryView>, verbose: bool) -> Seq<Seq<char>>
    decreases skills.len(),
{
    if skills.len() == 0 {
        Seq::empty()
    } else {
        skills_lines(skills.drop_last(), verbose) + skill_lines_of(skills.last(), verbose)
    }
}

/// The lines of some groups: a blank line, the heading, and the skills of each.
pub open spec fn groups_lines(groups: Seq<SkillGroupView>, verbose: bool) -> Seq<Seq<char>>
    decreases groups.len(),
{
    if groups.len() == 0 {
        Seq::empty()
    } else {
        groups_lines(groups.drop_last(), verbose) + seq![
            ""@,
            heading_of(groups.last()),
        ] + skills_lines(groups.last().skills, verbose)
    }
}

/// How many skills some groups hold.
pub open spec fn total_skills(groups: Seq<SkillGroupView>) -> nat
    decreases groups.len(),
{
    if groups.len() == 0 {
        0
    } else {
        total_skills(groups.drop_last()) + groups.last().skills.len()
    }
}

/// The configuration a listing runs with.
#[derive(Debug, PartialEq, Eq)]
pub struct SkillListConfig {
    pub owner_id: String,
    pub tenant_id: String,
    pub agent_id: String,
    pub local_dev_root: String,
    pub profile: String,
    pub composition_profile: RebornCompositionProfile,
}

/// The mathematical value of a [`SkillListConfig`].
#[verifier::ext_equal]
pub struct SkillListConfigView {
    pub owner_id: Seq<char>,
    pub tenant_id: Seq<char>,
    pub agent_id: Seq<char>,
    pub local_dev_root: Seq<char>,
    pub profile: Seq<char>,
    pub composition_profile: RebornCompositionProfile,
}

impl View for SkillListConfig {
    type V = SkillListConfigView;

    open spec fn view(&self) -> SkillListConfigView {
        SkillListConfigView {
            owner_id: self.owner_id@,
            tenant_id: self.tenant_id@,
            agent_id: self.agent_id@,
            local_dev_root: self.local_dev_root@,
            profile: self.profile@,
            composition_profile: self.composition_profile,
        }
    }
}

impl DeepView for SkillListConfig {
    type V = SkillListConfigView;

    open spec fn deep_view(&self) -> SkillListConfigView {
        self@
    }
}

impl Clone for SkillListConfig {
    fn clone(&self) -> (r: Self)
        ensures
            r@ == self@,
    {
        SkillListConfig {
            owner_id: self.owner_id.clone(),
            tenant_id: self.tenant_id.clone(),
            agent_id: self.agent_id.clone(),
            local_dev_root: self.local_dev_root.clone(),
            profile: self.profile.clone(),
            composition_profile: self.composition_profile,
        }
    }
}

/// Whether skills can be listed under a profile. The names of the profiles are the
/// host's; these are the ones this library reads as local.
pub open spec fn profile_supported(profile: Seq<char>) -> bool {
    ||| profile == "local-dev"@
    ||| profile == "local-dev-yolo"@
    ||| profile == "hosted-single-tenant"@
    ||| profile == "hosted-single-tenant-volume"@
}

/// Checks that skills can be listed under a profile, as this library reads its
/// name.
pub fn check_profile(profile: &str) -> (r: Result<(), String>)
    ensures
        match r {
            Ok(()) => profile_supported(profile@),
            Err(message) => !profile_supported(profile@) && message@
                == "ironclaw skills currently supports profile=local-dev, profile=local-dev-yolo, profile=hosted-single-tenant, or profile=hosted-single-tenant-volume; got profile="@
                + profile@,
        },
{
    if same_text(profile, "local-dev") || same_text(profile, "local-dev-yolo") || same_text(
        profile,
        "hosted-single-tenant",
    ) || same_text(profile, "hosted-single-tenant-volume") {
        Ok(())
    } else {
        Err(
            joined(
                "ironclaw skills currently supports profile=local-dev, profile=local-dev-yolo, profile=hosted-single-tenant, or profile=hosted-single-tenant-volume; got profile=",
                profile,
            ),
        )
    }
}

/// A skill of a JSON listing, with its owner.
#[derive(Debug, PartialEq, Eq)]
pub struct SkillJsonRow {
    pub skill: SkillSummary,
    pub tenant: Option<String>,
    pub user: Option<String>,
}

/// The mathematical value of a [`SkillJsonRow`].
#[verifier::ext_equal]
pub struct SkillJsonRowView {
    pub skill: SkillSummaryView,
    pub tenant: Option<Seq<char>>,
    pub user: Option<Seq<char>>,
}

impl View for SkillJsonRow {
    type V = SkillJsonRowView;

    open spec fn view(&self) -> SkillJsonRowView {
        SkillJsonRowView {
            skill: self.skill@,
            tenant: self.tenant.deep_view(),
            user: self.user.deep_view(),
        }
    }
}

impl DeepView for SkillJsonRow {
    type V = SkillJsonRowView;

    open spec fn deep_view(&self) -> SkillJsonRowView {
        self@
    }
}

impl Clone for SkillJsonRow {
    fn clone(&self) -> (r: Self)
        ensures
            r@ == self@,
    {
        let r = SkillJsonRow {
            skill: self.skill.clone(),
            tenant: self.tenant.clone(),
            user: self.user.clone(),
        };
        assert(r.tenant.deep_view() =~= self.tenant.deep_view());
        assert(r.user.deep_view() =~= self.user.deep_view());
        r
    }
}

/// The row of a skill in a group.
pub open spec fn row_of(group: SkillGroupView, skill: SkillSummaryView) -> SkillJsonRowView {
    match group.owner {
        None => SkillJsonRowView { skill, tenant: None, user: None },
        Some(owner) => SkillJsonRowView {
            skill,
            tenant: Some(owner.tenant),
            user: Some(owner.user),
        },
    }
}

/// The rows of a group.
pub open spec fn group_rows(group: SkillGroupView) -> Seq<SkillJsonRowView> {
    group.skills.map_values(|skill: SkillSummaryView| row_of(group, skill))
}

/// The rows of some groups, in order.
pub open spec fn rows_of(groups: Seq<SkillGroupView>) -> Seq<SkillJsonRowView>
    decreases groups.len(),
{
    if groups.len() == 0 {
        Seq::empty()
    } else {
        rows_of(groups.drop_last()) + group_rows(groups.last())
    }
}

/// The rows of a JSON listing.
pub fn skills_json(groups: &Vec<SkillGroup>) -> (r: Vec<SkillJsonRow>)
    ensures
        r.deep_view() == rows_of(groups.deep_view()),
{
    let ghost views = groups.deep_view();
    let mut out: Vec<SkillJsonRow> = Vec::new();
    let mut i: usize = 0;
    assert(out.deep_view() =~= rows_of(views.take(0)));
    while i < groups.len()
        invariant
            views == groups.deep_view(),
            i <= groups@.len(),
            out.deep_view() == rows_of(views.take(i as int)),
        decreases groups@.len() - i,
    {
        let group = &groups[i];
        let ghost before = out.deep_view();
        let ghost rows = group_rows(group@);
        let mut k: usize = 0;
        assert(before + rows.take(0) =~= before);
        while k < group.skills.len()
            invariant
                rows == group_rows(group@),
                k <= group.skills@.len(),
                out.deep_view() == before + rows.take(k as int),
            decreases group.skills@.len() - k,
        {
            let ghost so_far = out.deep_view();
            let skill = group.skills[k].clone();
            let row = match &group.owner {
                None => SkillJsonRow { skill, tenant: None, user: None },
                Some(owner) => SkillJsonRow {
                    skill,
                    tenant: Some(owner.tenant.clone()),
                    user: Some(owner.user.clone()),
                },
            };
            let ghost added = row@;
            assert(group@.skills[k as int] == group.skills@[k as int]@);
            assert(rows[k as int] == added);
            out.push(row);
            assert(out.deep_view() =~= so_far.push(added));
            assert(so_far.push(added) =~= before + rows.take(k + 1));
            k = k + 1;
        }
        proof {
            assert(rows.take(rows.len() as int) =~= rows);
            assert(views.take(i + 1).drop_last() =~= views.take(i as int));
            assert(views.take(i + 1).last() == group@);
        }
        i = i + 1;
    }
    assert(views.take(views.len() as int) =~= views);
    out
}

fn count_skills(groups: &Vec<SkillGroup>) -> (r: usize)
    requires
        total_skills(groups.deep_view()) <= usize::MAX,
    ensures
        r == total_skills(groups.deep_view()),
{
    let ghost views = groups.deep_view();
    let mut total: usize = 0;
    let mut i: usize = 0;
    assert(total_skills(views.take(0)) == 0);
    while i < groups.len()
        invariant
            views == groups.deep_view(),
            total_skills(views) <= usize::MAX,
            i <= groups@.len(),
            total == total_skills(views.take(i as int)),
        decreases groups@.len() - i,
    {
        proof {
            assert(views.take(i + 1).drop_last() =~= views.take(i as int));
            assert(views.take(i + 1).last() == groups@[i as int]@);
            lemma_total_of_prefix(views, i + 1);
        }
        total = total + groups[i].skills.len();
        i = i + 1;
    }
    assert(views.take(views.len() as int) =~= views);
    total
}

proof fn lemma_total_of_prefix(groups: Seq<SkillGroupView>, upto: int)
    requires
        0 <= upto <= groups.len(),
    ensures
        total_skills(groups.take(upto)) <= total_skills(groups),
    decreases groups.len(),
{
    if upto < groups.len() {
        assert(groups.drop_last().take(upto) =~= groups.take(upto));
        lemma_total_of_prefix(groups.drop_last(), upto);
    } else {
        assert(groups.take(upto) =~= groups);
    }
}

/// The flags of a listing.
#[derive(Debug, PartialEq, Eq)]
pub struct SkillsListCommand {
    pub verbose: bool,
    pub json: bool,
    pub tenant: Option<String>,
    pub user: Option<String>,
}

/// The mathematical value of a [`SkillsListCommand`].
#[verifier::ext_equal]
pub struct SkillsListCommandView {
    pub verbose: bool,
    pub json: bool,
    pub tenant: Option<Seq<char>>,
    pub user: Option<Seq<char>>,
}

impl View for SkillsListCommand {
    type V = SkillsListCommandView;

    open spec fn view(&self) -> SkillsListCommandView {
        SkillsListCommandView {
            verbose: self.verbose,
            json: self.json,
            tenant: self.tenant.deep_view(),
            user: self.user.deep_view(),
        }
    }
}

impl DeepView for SkillsListCommand {
    type V = SkillsListCommandView;

    open spec fn deep_view(&self) -> SkillsListCommandView {
        self@
    }
}

impl Clone for SkillsListCommand {
    fn clone(&self) -> (r: Self)
        ensures
            r@ == self@,
    {
        let r = SkillsListCommand {
            verbose: self.verbose,
            json: self.json,
            tenant: self.tenant.clone(),
            user: self.user.clone(),
        };
        assert(r.tenant.deep_view() =~= self.tenant.deep_view());
        assert(r.user.deep_view() =~= self.user.deep_view());
        r
    }
}

/// Where the listed skills come from.
#[derive(Debug, PartialEq, Eq)]
pub struct SkillsDetails {
    pub profile: String,
    pub reborn_home: String,
    pub local_dev_root: String,
    pub owner_id: String,
}

/// The mathematical value of a [`SkillsDetails`].
#[verifier::ext_equal]
pub struct SkillsDetailsView {
    pub profile: Seq<char>,
    pub reborn_home: Seq<char>,
    pub local_dev_root: Seq<char>,
    pub owner_id: Seq<char>,
}

impl View for SkillsDetails {
    type V = SkillsDetailsView;

    open spec fn view(&self) -> SkillsDetailsView {
        SkillsDetailsView {
            profile: self.profile@,
            reborn_home: self.reborn_home@,
            local_dev_root: self.local_dev_root@,
            owner_id: self.owner_id@,
        }
    }
}

impl DeepView for SkillsDetails {
    type V = SkillsDetailsView;

    open spec fn deep_view(&self) -> SkillsDetailsView {
        self@
    }
}

impl Clone for SkillsDetails {
    fn clone(&self) -> (r: Self)
        ensures
            r@ == self@,
    {
        SkillsDetails {
            profile: self.profile.clone(),
            reborn_home: self.reborn_home.clone(),
            local_dev_root: self.local_dev_root.clone(),
            owner_id: self.owner_id.clone(),
        }
    }
}

/// What a listing prints.
#[derive(Debug, PartialEq, Eq)]
pub enum SkillsOutput {
    /// These lines.
    Text { lines: Vec<String> },
    /// A JSON object of these members; with details if the listing is verbose.
    Json {
        configured: usize,
        rows: Vec<SkillJsonRow>,
        source: String,
        details: Option<SkillsDetails>,
    },
}

/// The mathematical value of a [`SkillsOutput`].
#[verifier::ext_equal]
pub enum SkillsOutputView {
    Text { lines: Seq<Seq<char>> },
    Json {
        configured: usize,
        rows: Seq<SkillJsonRowView>,
        source: Seq<char>,
        details: Option<SkillsDetailsView>,
    },
}

impl View for SkillsOutput {
    type V = SkillsOutputView;

    open spec fn view(&self) -> SkillsOutputView {
        match self {
            SkillsOutput::Text { lines } => SkillsOutputView::Text { lines: lines.deep_view() },
            SkillsOutput::Json { configured, rows, source, details } => SkillsOutputView::Json {
                configured: *configured,
                rows: rows.deep_view(),
                source: source@,
                details: details.deep_view(),
            },
        }
    }
}

impl DeepView for SkillsOutput {
    type V = SkillsOutputView;

    open spec fn deep_view(&self) -> SkillsOutputView {
        self@
    }
}

impl Clone for SkillsOutput {
    fn clone(&self) -> (r: Self)
        ensures
            r@ == self@,
    {
        match self {
            SkillsOutput::Text { lines } => {
                let lines_copy = lines.clone();
                assert(lines_copy.deep_view() =~= lines.deep_view());
                SkillsOutput::Text { lines: lines_copy }
            },
            SkillsOutput::Json { configured, rows, source, details } => {
                let rows_copy = rows.clone();
                let details_copy = details.clone();
                assert(rows_copy.deep_view() =~= rows.deep_view());
                assert(details_copy.deep_view() =~= details.deep_view());
                SkillsOutput::Json {
                    configured: *configured,
                    rows: rows_copy,
                    source: source.clone(),
                    details: details_copy,
                }
            },
        }
    }
}

/// A listing: a warning on the error stream, and the output.
#[derive(Debug, PartialEq, Eq)]
pub struct SkillsReport {
    pub warning: Option<String>,
    pub output: SkillsOutput,
}

/// The mathematical value of a [`SkillsReport`].
#[verifier::ext_equal]
pub struct SkillsReportView {
    pub warning: Option<Seq<char>>,
    pub output: SkillsOutputView,
}

impl View for SkillsReport {
    type V = SkillsReportView;

    open spec fn view(&self) -> SkillsReportView {
        SkillsReportView {
            warning: self.warning.deep_view(),
            output: self.output@,
        }
    }
}

impl DeepView for SkillsReport {
    type V = SkillsReportView;

    open spec fn deep_view(&self) -> SkillsReportView {
        self@
    }
}

impl Clone for SkillsReport {
    fn clone(&self) -> (r: Self)
        ensures
            r@ == self@,
    {
        let r = SkillsReport {
            warning: self.warning.clone(),
            output: self.output.clone(),
        };
        assert(r.warning.deep_view() =~= self.warning.deep_view());
        r
    }
}

/// The filter of some flags.
pub open spec fn filter_of(command: SkillsListCommandView) -> SkillOwnerFilterView {
    SkillOwnerFilterView { tenant: command.tenant, user: command.user }
}

/// The warning of a filter that matches nothing, which is mostly a typo.
pub open spec fn warning_of(
    filter: SkillOwnerFilterView,
    groups: Seq<SkillGroupView>,
) -> Option<Seq<char>> {
    if !filter.is_open() && groups.len() == 0 {
        Some(
            "warning: no skill owner matches "@ + terminal_safe(filter.words())
                + "; run without --tenant/--user to list known owners"@,
        )
    } else {
        None
    }
}

/// The details of a verbose listing.
pub open spec fn details_of(config: SkillListConfigView, home: Seq<char>) -> SkillsDetailsView {
    SkillsDetailsView {
        profile: config.profile,
        reborn_home: home,
        local_dev_root: config.local_dev_root,
        owner_id: config.owner_id,
    }
}

/// The lines of some details.
pub open spec fn detail_lines(details: SkillsDetailsView) -> Seq<Seq<char>> {
    seq![
        "profile: "@ + details.profile,
        "reborn_home: "@ + details.reborn_home,
        "local_dev_root: "@ + details.local_dev_root,
        "owner_id: "@ + details.owner_id,
    ]
}

/// The lines of a listing.
pub open spec fn listing_lines(
    config: SkillListConfigView,
    home: Seq<char>,
    groups: Seq<SkillGroupView>,
    verbose: bool,
) -> Seq<Seq<char>> {
    seq![
        "IronClaw Reborn skills"@,
        "configured: "@ + decimal(total_skills(groups)),
        "source: reborn-local-dev"@,
    ] + (if verbose {
        detail_lines(details_of(config, home))
    } else {
        Seq::empty()
    }) + groups_lines(groups, verbose)
}

/// What a listing prints.
pub open spec fn report_of(
    command: SkillsListCommandView,
    config: SkillListConfigView,
    home: Seq<char>,
    groups: Seq<SkillGroupView>,
) -> SkillsReportView {
    SkillsReportView {
        warning: warning_of(filter_of(command), groups),
        output: if command.json {
            SkillsOutputView::Json {
                configured: total_skills(groups) as usize,
                rows: rows_of(groups),
                source: "reborn-local-dev"@,
                details: if command.verbose {
                    Some(details_of(config, home))
                } else {
                    None
                },
            }
        } else {
            SkillsOutputView::Text {
                lines: listing_lines(config, home, groups, command.verbose),
            }
        },
    }
}

fn push_line(lines: &mut Vec<String>, line: String)
    ensures
        final(lines).deep_view() == old(lines).deep_view().push(line@),
{
    let ghost before = lines.deep_view();
    let ghost added = line@;
    lines.push(line);
    assert(lines.deep_view() =~= before.push(added));
}

fn add_group_lines(lines: &mut Vec<String>, groups: &Vec<SkillGroup>, verbose: bool)
    ensures
        final(lines).deep_view() == old(lines).deep_view() + groups_lines(
            groups.deep_view(),
            verbose,
        ),
{
    let ghost before = lines.deep_view();
    let ghost views = groups.deep_view();
    let mut i: usize = 0;
    assert(before + groups_lines(views.take(0), verbose) =~= before);
    while i < groups.len()
        invariant
            views == groups.deep_view(),
            i <= groups@.len(),
            lines.deep_view() == before + groups_lines(views.take(i as int), verbose),
        decreases groups@.len() - i,
    {
        let group = &groups[i];
        let ghost start = lines.deep_view();
        push_line(lines, "".to_string());
        push_line(lines, group_heading(group));
        let ghost headed = lines.deep_view();
        assert(headed =~= start + seq![""@, heading_of(group@)]);
        let ghost skills = group@.skills;
        let mut k: usize = 0;
        assert(headed + skills_lines(skills.take(0), verbose) =~= headed);
        while k < group.skills.len()
            invariant
                skills == group@.skills,
                k <= group.skills@.len(),
                lines.deep_view() == headed + skills_lines(skills.take(k as int), verbose),
            decreases group.skills@.len() - k,
        {
            proof {
                assert(skills.take(k + 1).drop_last() =~= skills.take(k as int));
                assert(skills.take(k + 1).last() == group.skills@[k as int]@);
            }
            add_skill_lines(lines, &group.skills[k], verbose);
            assert(lines.deep_view() =~= headed + skills_lines(skills.take(k + 1), verbose));
            k = k + 1;
        }
        proof {
            assert(skills.take(skills.len() as int) =~= skills);
            assert(views.take(i + 1).drop_last() =~= views.take(i as int));
            assert(views.take(i + 1).last() == group@);
            assert(lines.deep_view() =~= before + groups_lines(views.take(i + 1), verbose));
        }
        i = i + 1;
    }
    assert(views.take(views.len() as int) =~= views);
}

impl SkillsListCommand {
    /// The filter of the flags.
    pub fn filter(&self) -> (r: SkillOwnerFilter)
        ensures
            r@ == filter_of(self@),
    {
        let r = SkillOwnerFilter { tenant: self.tenant.clone(), user: self.user.clone() };
        assert(r@.tenant =~= self@.tenant);
        assert(r@.user =~= self@.user);
        r
    }

    /// What the listing prints, given the groups it collected. `home` is the
    /// directory the host lives in.
    pub fn execute(&self, config: &SkillListConfig, home: &str, groups: &Vec<SkillGroup>) -> (r:
        SkillsReport)
        requires
            total_skills(groups.deep_view()) <= usize::MAX,
        ensures
            r@ == report_of(self@, config@, home@, groups.deep_view()),
    {
        let filter = self.filter();
        let configured: usize = count_skills(groups);
        assert(groups.deep_view().len() == groups@.len());
        let warning = if !filter.is_empty() && groups.is_empty() {
            Some(
                joined3(
                    "warning: no skill owner matches ",
                    terminal_safe_text(filter.describe().as_str()).as_str(),
                    "; run without --tenant/--user to list known owners",
                ),
            )
        } else {
            None
        };
        if self.json {
            return SkillsReport {
                warning,
                output: SkillsOutput::Json {
                    configured,
                    rows: skills_json(groups),
                    source: "reborn-local-dev".to_string(),
                    details: if self.verbose {
                        Some(
                            SkillsDetails {
                                profile: config.profile.clone(),
                                reborn_home: home.to_string(),
                                local_dev_root: config.local_dev_root.clone(),
                                owner_id: config.owner_id.clone(),
                            },
                        )
                    } else {
                        None
                    },
                },
            };
        }
        let mut lines: Vec<String> = Vec::new();
        push_line(&mut lines, "IronClaw Reborn skills".to_string());
        push_line(&mut lines, joined("configured: ", decimal_text(configured).as_str()));
        push_line(&mut lines, "source: reborn-local-dev".to_string());
        if self.verbose {
            push_line(&mut lines, joined("profile: ", config.profile.as_str()));
            push_line(&mut lines, joined("reborn_home: ", home));
            push_line(&mut lines, joined("local_dev_root: ", config.local_dev_root.as_str()));
            push_line(&mut lines, joined("owner_id: ", config.owner_id.as_str()));
        }
        add_group_lines(&mut lines, groups, self.verbose);
        assert(lines.deep_view() =~= listing_lines(
            config@,
            home@,
            groups.deep_view(),
            self@.verbose,
        ));
        SkillsReport { warning, output: SkillsOutput::Text { lines } }
    }
}

/// A skills command.
#[derive(Debug, PartialEq, Eq)]
pub enum SkillsCommand {
    /// List configured skills.
    List(SkillsListCommand),
}

impl SkillsCommand {
    /// What the command prints.
    pub fn execute(&self, config: &SkillListConfig, home: &str, groups: &Vec<SkillGroup>) -> (r:
        SkillsReport)
        requires
            total_skills(groups.deep_view()) <= usize::MAX,
        ensures
            match self {
                SkillsCommand::List(command) => r@ == report_of(
                    command@,
                    config@,
                    home@,
                    groups.deep_view(),
                ),
            },
    {
        match self {
            SkillsCommand::List(command) => command.execute(config, home, groups),
        }
    }
}

/// An owner outside the filter is never shown: every group of a narrowed listing
/// is that of an owner within the filter.
pub proof fn law_narrowed_listing_stays_within_the_filter(
    filter: SkillOwnerFilterView,
    bundled: ListAnswerView,
    identity: IdentityCheckView,
    source: SourceAnswerView,
    at: int,
)
    requires
        !filter.is_open(),
        groups_of(filter, bundled, identity, source) is Groups,
        0 <= at < groups_of(filter, bundled, identity, source)->groups.len(),
    ensures
        groups_of(filter, bundled, identity, source)->groups[at].owner matches Some(owner)
            && filter.admits(owner.tenant, owner.user),
{
    if let SourceAnswerView::Open { owners } = source {
        lemma_owner_groups(filter, owners, 0, Seq::empty());
    }
}

/// Whether every group is that of an owner within the filter, or one that was
/// there before.
pub open spec fn within_filter(
    filter: SkillOwnerFilterView,
    groups: Seq<SkillGroupView>,
    from: int,
) -> bool {
    forall|k: int|
        from <= k < groups.len() ==> ((#[trigger] groups[k]).owner matches Some(owner)
            && filter.admits(owner.tenant, owner.user))
}

proof fn lemma_owner_groups(
    filter: SkillOwnerFilterView,
    owners: Seq<OwnerSkillsView>,
    at: nat,
    groups: Seq<SkillGroupView>,
)
    ensures
        owner_groups(filter, owners, at, groups) matches GroupsOutcomeView::Groups { groups: all }
            ==> {
            &&& all.len() >= groups.len()
            &&& all.take(groups.len() as int) == groups
            &&& within_filter(filter, all, groups.len() as int)
        },
    decreases owners.len() - at,
{
    if at >= owners.len() {
        assert(groups.take(groups.len() as int) =~= groups);
    } else {
        let here = owners[at as int];
        lemma_owner_groups(filter, owners, at + 1, groups);
        if let ListAnswerView::Listed { skills } = here.skills {
            let longer = groups.push(group_of(here.owner, skills));
            lemma_owner_groups(filter, owners, at + 1, longer);
            if let GroupsOutcomeView::Groups { groups: all } = owner_groups(
                filter,
                owners,
                at + 1,
                longer,
            ) {
                assert(all.take(groups.len() as int) =~= all.take(longer.len() as int).take(
                    groups.len() as int,
                ));
                assert(longer.take(groups.len() as int) =~= groups);
                if filter.admits(here.owner.tenant_id, here.owner.user_id) {
                    assert(all[groups.len() as int] == all.take(longer.len() as int)[groups.len() as int]);
                }
            }
        }
    }
}

/// An unnarrowed listing starts with the skills that come with the host.
pub proof fn law_bundled_skills_come_first(
    filter: SkillOwnerFilterView,
    skills: Seq<SkillSummaryView>,
    identity: IdentityCheckView,
    source: SourceAnswerView,
)
    requires
        filter.is_open(),
    ensures
        groups_of(filter, ListAnswerView::Listed { skills }, identity, source) matches
            GroupsOutcomeView::Groups { groups } ==> groups.len() > 0 && groups[0] == (
        SkillGroupView { owner: None, skills }),
{
    if let SourceAnswerView::Open { owners } = source {
        let first = seq![SkillGroupView { owner: None, skills }];
        lemma_owner_groups(filter, owners, 0, first);
        if let GroupsOutcomeView::Groups { groups } = owner_groups(filter, owners, 0, first) {
            assert(groups.take(1)[0] == first[0]);
        }
    }
}

/// The group that an owner is listed under.
pub open spec fn listed_group() -> spec_fn(OwnerSkillsView) -> SkillGroupView {
    |owner: OwnerSkillsView| group_of(owner.owner, owner.skills->Listed_skills)
}

proof fn lemma_every_owner_is_grouped(
    filter: SkillOwnerFilterView,
    owners: Seq<OwnerSkillsView>,
    at: nat,
    groups: Seq<SkillGroupView>,
)
    requires
        filter.is_open(),
        at <= owners.len(),
        forall|k: int| 0 <= k < owners.len() ==> (#[trigger] owners[k]).skills is Listed,
    ensures
        owner_groups(filter, owners, at, groups) == (GroupsOutcomeView::Groups {
            groups: groups + owners.skip(at as int).map_values(listed_group()),
        }),
    decreases owners.len() - at,
{
    let rest = owners.skip(at as int);
    if at == owners.len() {
        assert(groups + rest.map_values(listed_group()) =~= groups);
    } else {
        let longer = groups.push(listed_group()(owners[at as int]));
        lemma_every_owner_is_grouped(filter, owners, at + 1, longer);
        assert(groups + rest.map_values(listed_group()) =~= longer + owners.skip(
            at as int + 1,
        ).map_values(listed_group()));
    }
}

/// An unnarrowed listing has one group for the skills that come with the host and
/// one for each owner of the store, in order, also for an owner without skills:
/// a fresh store is listed under its own heading.
pub proof fn law_every_owner_has_a_group(
    filter: SkillOwnerFilterView,
    skills: Seq<SkillSummaryView>,
    identity: IdentityCheckView,
    owners: Seq<OwnerSkillsView>,
)
    requires
        filter.is_open(),
        identity_error(identity) is None,
        forall|k: int| 0 <= k < owners.len() ==> (#[trigger] owners[k]).skills is Listed,
    ensures
        groups_of(
            filter,
            ListAnswerView::Listed { skills },
            identity,
            SourceAnswerView::Open { owners },
        ) == (GroupsOutcomeView::Groups {
            groups: seq![SkillGroupView { owner: None, skills }] + owners.map_values(
                listed_group(),
            ),
        }),
{
    lemma_every_owner_is_grouped(
        filter,
        owners,
        0,
        seq![SkillGroupView { owner: None, skills }],
    );
    assert(owners.skip(0) =~= owners);
}

/// A filter admits an owner exactly if each of its parts that is given is the owner's.
pub proof fn law_filter_admits_its_own(
    filter: SkillOwnerFilterView,
    tenant: Seq<char>,
    user: Seq<char>,
)
    ensures
        filter.admits(tenant, user) <==> (filter.tenant is None || filter.tenant == Some(tenant))
            && (filter.user is None || filter.user == Some(user)),
        filter.is_open() <==> filter.tenant is None && filter.user is None,
{
}

/// The listing is narrowed by the very tenant and user of the flags.
pub proof fn law_flags_are_the_filter(command: SkillsListCommandView)
    ensures
        filter_of(command).tenant == command.tenant,
        filter_of(command).user == command.user,
{
}

/// The skills that come with the host are asked for exactly if no owner is picked; then
/// the identity is checked, tenant, agent and owner in turn, and then the store is
/// opened. Each failure is passed on. A listing without a store has no owners.
pub proof fn law_listing_is_collected_in_order(
    filter: SkillOwnerFilterView,
    bundled: ListAnswerView,
    identity: IdentityCheckView,
    source: SourceAnswerView,
)
    ensures
        ({
            let result = groups_of(filter, bundled, identity, source);
            let open = filter.tenant is None && filter.user is None;
            let settled = !open || bundled is Listed;
            let known = settled && identity.tenant is None && identity.agent is None
                && identity.owner is None;
            let first = if open {
                seq![SkillGroupView { owner: None, skills: bundled->Listed_skills }]
            } else {
                Seq::empty()
            };
            &&& open && bundled is Unasked ==> result is AskBundled
            &&& bundled matches ListAnswerView::Failed { error } ==> (open ==> result == (
            GroupsOutcomeView::Failed { error: SkillGroupsErrorView::List(error) }))
            &&& identity.tenant matches Some(error) ==> (settled ==> result == (
            GroupsOutcomeView::Failed {
                error: SkillGroupsErrorView::Identity {
                    message: "invalid runtime tenant identity: "@ + error,
                },
            }))
            &&& identity.agent matches Some(error) ==> (settled && identity.tenant is None
                ==> result == (GroupsOutcomeView::Failed {
                error: SkillGroupsErrorView::Identity {
                    message: "invalid runtime agent identity: "@ + error,
                },
            }))
            &&& identity.owner matches Some(error) ==> (settled && identity.tenant is None
                && identity.agent is None ==> result == (GroupsOutcomeView::Failed {
                error: SkillGroupsErrorView::Identity {
                    message: "invalid runtime owner identity: "@ + error,
                },
            }))
            &&& known && source is Unasked ==> result is AskSource
            &&& source matches SourceAnswerView::Failed { error } ==> (known ==> result == (
            GroupsOutcomeView::Failed { error: SkillGroupsErrorView::Open(error) }))
            &&& known && source is Missing ==> result == (GroupsOutcomeView::Groups {
                groups: first,
            })
            &&& source matches SourceAnswerView::Open { owners } ==> (known && owners.len() == 0
                ==> result == (GroupsOutcomeView::Groups { groups: first }))
        }),
{
}

proof fn lemma_owner_groups_pushed(
    filter: SkillOwnerFilterView,
    owners: Seq<OwnerSkillsView>,
    more: OwnerSkillsView,
    at: nat,
    groups: Seq<SkillGroupView>,
)
    requires
        at <= owners.len(),
    ensures
        owner_groups(filter, owners.push(more), at, groups) == match owner_groups(
            filter,
            owners,
            at,
            groups,
        ) {
            GroupsOutcomeView::Groups { groups: found } => owner_groups(
                filter,
                owners.push(more),
                owners.len(),
                found,
            ),
            other => other,
        },
    decreases owners.len() - at,
{
    if at < owners.len() {
        let here = owners[at as int];
        assert(owners.push(more)[at as int] == here);
        lemma_owner_groups_pushed(filter, owners, more, at + 1, groups);
        if let ListAnswerView::Listed { skills } = here.skills {
            lemma_owner_groups_pushed(
                filter,
                owners,
                more,
                at + 1,
                groups.push(group_of(here.owner, skills)),
            );
        }
    }
}

/// One more owner of the store adds a group at the end exactly if the filter admits it:
/// a group under its own tenant and user, with the skills listed for it, be they none.
/// Skills that were not listed are asked for, and a failed listing fails the command.
pub proof fn law_each_admitted_owner_adds_its_group(
    filter: SkillOwnerFilterView,
    bundled: ListAnswerView,
    identity: IdentityCheckView,
    owners: Seq<OwnerSkillsView>,
    more: OwnerSkillsView,
)
    requires
        owners.len() < usize::MAX,
    ensures
        ({
            let before = groups_of(filter, bundled, identity, SourceAnswerView::Open { owners });
            let after = groups_of(
                filter,
                bundled,
                identity,
                SourceAnswerView::Open { owners: owners.push(more) },
            );
            let admitted = (filter.tenant is None || filter.tenant == Some(more.owner.tenant_id))
                && (filter.user is None || filter.user == Some(more.owner.user_id));
            match before {
                GroupsOutcomeView::Groups { groups } => if !admitted {
                    after == before
                } else {
                    match more.skills {
                        ListAnswerView::Unasked => after is AskOwner && after->index
                            == owners.len(),
                        ListAnswerView::Failed { error } => after == (GroupsOutcomeView::Failed {
                            error: SkillGroupsErrorView::List(error),
                        }),
                        ListAnswerView::Listed { skills } => after == (GroupsOutcomeView::Groups {
                            groups: groups.push(
                                SkillGroupView {
                                    owner: Some(
                                        SkillGroupOwnerView {
                                            tenant: more.owner.tenant_id,
                                            user: more.owner.user_id,
                                        },
                                    ),
                                    skills,
                                },
                            ),
                        }),
                    }
                },
                _ => after == before,
            }
        }),
{
    lemma_owner_groups_pushed(filter, owners, more, 0, Seq::empty());
    if let ListAnswerView::Listed { skills } = bundled {
        lemma_owner_groups_pushed(
            filter,
            owners,
            more,
            0,
            seq![SkillGroupView { owner: None, skills }],
        );
    }
    reveal_with_fuel(owner_groups, 3);
    assert(owners.push(more)[owners.len() as int] == more);
}

/// One more group adds its skills to the count, and a row for each of them, in order and
/// under the group's own tenant and user.
pub proof fn law_each_group_adds_its_skills(groups: Seq<SkillGroupView>, group: SkillGroupView)
    ensures
        total_skills(Seq::empty()) == 0,
        rows_of(Seq::empty()).len() == 0,
        total_skills(groups.push(group)) == total_skills(groups) + group.skills.len(),
        ({
            let before = rows_of(groups);
            let after = rows_of(groups.push(group));
            &&& after.len() == before.len() + group.skills.len()
            &&& after.take(before.len() as int) == before
            &&& forall|k: int|
                0 <= k < group.skills.len() ==> {
                    let row = after[before.len() + k];
                    &&& row.skill == #[trigger] group.skills[k]
                    &&& group.owner is None ==> row.tenant is None && row.user is None
                    &&& group.owner matches Some(owner) ==> row.tenant == Some(owner.tenant)
                        && row.user == Some(owner.user)
                }
        }),
{
    assert(groups.push(group).drop_last() =~= groups);
    let before = rows_of(groups);
    assert(rows_of(groups.push(group)).take(before.len() as int) =~= before);
}

/// One more group adds a blank line, its heading and the lines of its skills; one more
/// skill adds its own lines.
pub proof fn law_each_group_adds_its_lines(
    groups: Seq<SkillGroupView>,
    group: SkillGroupView,
    skills: Seq<SkillSummaryView>,
    skill: SkillSummaryView,
    verbose: bool,
)
    ensures
        groups_lines(Seq::empty(), verbose).len() == 0,
        skills_lines(Seq::empty(), verbose).len() == 0,
        groups_lines(groups.push(group), verbose) == groups_lines(groups, verbose) + seq![
            ""@,
            heading_of(group),
        ] + skills_lines(group.skills, verbose),
        skills_lines(skills.push(skill), verbose) == skills_lines(skills, verbose)
            + skill_lines_of(skill, verbose),
        group.owner is None ==> heading_of(group) == "bundled"@,
        group.owner matches Some(owner) ==> heading_of(group) == "tenant "@ + terminal_safe(
            owner.tenant,
        ) + " / user "@ + terminal_safe(owner.user),
{
    assert(groups.push(group).drop_last() =~= groups);
    assert(skills.push(skill).drop_last() =~= skills);
}

/// A skill is printed as its name with its source, then its description. A verbose
/// listing adds its version, keywords, tags and needed skills. What is empty has no line,
/// and no control character is printed.
pub proof fn law_skill_is_printed_field_by_field(skill: SkillSummaryView)
    ensures
        ({
            let short = skill_lines_of(skill, false);
            let full = skill_lines_of(skill, true);
            let described = if skill.description.len() > 0 {
                1int
            } else {
                0int
            };
            &&& short.len() == 1 + described
            &&& short[0] == "- "@ + terminal_safe(skill.name) + " ("@ + source_name(skill.source)
                + ")"@
            &&& described == 1 ==> short[1] == "  description: "@ + terminal_safe(
                skill.description,
            )
            &&& full == short + text_field("version"@, skill.version) + list_field(
                "keywords"@,
                skill.keywords,
            ) + list_field("tags"@, skill.tags) + list_field(
                "requires_skills"@,
                skill.requires_skills,
            )
        }),
{
    reveal_strlit("  ");
    reveal_strlit(": ");
    reveal_strlit("description");
    reveal_strlit("  description: ");
    assert("  "@ + "description"@ + ": "@ =~= "  description: "@);
    let short = skill_lines_of(skill, false);
    assert(short =~= seq![
        "- "@ + terminal_safe(skill.name) + " ("@ + source_name(skill.source) + ")"@,
    ] + text_field("description"@, skill.description));
    assert(skill_lines_of(skill, true) =~= short + text_field("version"@, skill.version)
        + list_field("keywords"@, skill.keywords) + list_field("tags"@, skill.tags) + list_field(
        "requires_skills"@,
        skill.requires_skills,
    ));
}

/// A field is one line with its label, or none if it is empty. The values of a list that
/// are not empty stand in order, with a comma between them.
pub proof fn law_fields_are_labelled_lines(
    label: Seq<char>,
    text: Seq<char>,
    values: Seq<Seq<char>>,
    value: Seq<char>,
)
    ensures
        text.len() == 0 ==> text_field(label, text).len() == 0,
        text.len() > 0 ==> text_field(label, text) == seq![
            "  "@ + label + ": "@ + terminal_safe(text),
        ],
        safe_values(Seq::empty()).len() == 0,
        value.len() == 0 ==> safe_values(values.push(value)) == safe_values(values),
        value.len() > 0 ==> safe_values(values.push(value)) == safe_values(values).push(
            terminal_safe(value),
        ),
        safe_values(values).len() == 0 ==> list_field(label, values).len() == 0,
        safe_values(values).len() > 0 ==> list_field(label, values) == seq![
            "  "@ + label + ": "@ + joined_with(safe_values(values), ", "@),
        ],
{
    reveal(Seq::filter);
    let safe = |v: Seq<char>| terminal_safe(v);
    assert(values.push(value).map_values(safe) =~= values.map_values(safe).push(
        terminal_safe(value),
    ));
    assert(values.map_values(safe).push(terminal_safe(value)).drop_last() =~= values.map_values(
        safe,
    ));
    assert(terminal_safe(value).len() == value.len());
}

/// A listing warns exactly if it is narrowed and finds nobody. It prints JSON or lines as
/// the flags say, with the number of skills and the source, and says where they come from
/// exactly if it is verbose: the profile, the home, the root and the owner.
pub proof fn law_report_prints_what_was_asked(
    command: SkillsListCommandView,
    config: SkillListConfigView,
    home: Seq<char>,
    groups: Seq<SkillGroupView>,
)
    requires
        total_skills(groups) <= usize::MAX,
    ensures
        ({
            let report = report_of(command, config, home, groups);
            let narrowed = command.tenant is Some || command.user is Some;
            &&& report.warning is Some <==> narrowed && groups.len() == 0
            &&& report.output is Json <==> command.json
            &&& report.output matches SkillsOutputView::Json {
                configured,
                rows,
                source,
                details,
            } ==> {
                &&& configured == total_skills(groups)
                &&& rows == rows_of(groups)
                &&& source == "reborn-local-dev"@
                &&& details is Some <==> command.verbose
                &&& details matches Some(details) ==> {
                    &&& details.profile == config.profile
                    &&& details.reborn_home == home
                    &&& details.local_dev_root == config.local_dev_root
                    &&& details.owner_id == config.owner_id
                }
            }
            &&& report.output matches SkillsOutputView::Text { lines } ==> {
                let head = if command.verbose {
                    7int
                } else {
                    3int
                };
                &&& lines.len() == head + groups_lines(groups, command.verbose).len()
                &&& lines.skip(head) == groups_lines(groups, command.verbose)
                &&& lines[0] == "IronClaw Reborn skills"@
                &&& lines[1] == "configured: "@ + decimal(total_skills(groups))
                &&& lines[2] == "source: reborn-local-dev"@
                &&& command.verbose ==> {
                    &&& lines[3] == "profile: "@ + config.profile
                    &&& lines[4] == "reborn_home: "@ + home
                    &&& lines[5] == "local_dev_root: "@ + config.local_dev_root
                    &&& lines[6] == "owner_id: "@ + config.owner_id
                }
            }
        }),
{
    let lines = listing_lines(config, home, groups, command.verbose);
    let head: int = if command.verbose {
        7
    } else {
        3
    };
    assert(lines.skip(head) =~= groups_lines(groups, command.verbose));
}

/// A warning names the tenant and the user that nobody matches, without control
/// characters.
pub proof fn law_warning_names_the_filter(
    filter: SkillOwnerFilterView,
    tenant: Seq<char>,
    user: Seq<char>,
)
    ensures
        (SkillOwnerFilterView { tenant: Some(tenant), user: Some(user) }).words() == "tenant "@
            + tenant + " / user "@ + user,
        (SkillOwnerFilterView { tenant: Some(tenant), user: None }).words() == "tenant "@ + tenant,
        (SkillOwnerFilterView { tenant: None, user: Some(user) }).words() == "user "@ + user,
        warning_of(filter, Seq::empty()) matches Some(warning) ==> warning
            == "warning: no skill owner matches "@ + terminal_safe(filter.words())
            + "; run without --tenant/--user to list known owners"@,
{
}

/// Skills are listed under the local profiles and the hosted single-tenant ones, and no
/// other.
pub proof fn law_supported_profiles(profile: Seq<char>)
    ensures
        profile_supported(profile) <==> seq![
            "local-dev"@,
            "local-dev-yolo"@,
            "hosted-single-tenant"@,
            "hosted-single-tenant-volume"@,
        ].contains(profile),
{
    let supported = seq![
        "local-dev"@,
        "local-dev-yolo"@,
        "hosted-single-tenant"@,
        "hosted-single-tenant-volume"@,
    ];
    assert(supported[0] == "local-dev"@);
    assert(supported[1] == "local-dev-yolo"@);
    assert(supported[2] == "hosted-single-tenant"@);
    assert(supported[3] == "hosted-single-tenant-volume"@);
}

} // verus!
