//! Who owns skills: found in the store, because users come and go at run time.
//!
//! The store is read a directory at a time. Each decision is made from what was
//! read so far; where a directory is missing, the outcome says which to read.

use vstd::prelude::*;

use crate::ids::{TenantId, UserId};
use crate::outcome::outcome;
use crate::scope::{ResourceScope, ResourceScopeView};
use crate::skills::listing::{RebornBuildError, RebornBuildErrorView};
use crate::text::{joined, joined3};

verus! {

/// An entry of a directory.
#[derive(Debug, PartialEq, Eq)]
pub struct DirectoryEntry {
    pub name: String,
    pub is_directory: bool,
}

/// The mathematical value of a [`DirectoryEntry`].
#[verifier::ext_equal]
pub struct DirectoryEntryView {
    pub name: Seq<char>,
    pub is_directory: bool,
}

impl View for DirectoryEntry {
    type V = DirectoryEntryView;

    open spec fn view(&self) -> DirectoryEntryView {
        DirectoryEntryView {
            name: self.name@,
            is_directory: self.is_directory,
        }
    }
}

impl DeepView for DirectoryEntry {
    type V = DirectoryEntryView;

    open spec fn deep_view(&self) -> DirectoryEntryView {
        self@
    }
}

impl Clone for DirectoryEntry {
    fn clone(&self) -> (r: Self)
        ensures
            r@ == self@,
    {
        DirectoryEntry {
            name: self.name.clone(),
            is_directory: self.is_directory,
        }
    }
}

/// What listing a directory gave.
#[derive(Debug, PartialEq, Eq)]
pub enum DirectoryAnswer {
    Entries { entries: Vec<DirectoryEntry> },
    /// There is no such directory.
    NotFound,
    /// The path is not valid.
    InvalidPath { reason: String },
    /// Any other failure.
    Failed { reason: String },
}

/// The mathematical value of a [`DirectoryAnswer`].
#[verifier::ext_equal]
pub enum DirectoryAnswerView {
    Entries { entries: Seq<DirectoryEntryView> },
    NotFound,
    InvalidPath { reason: Seq<char> },
    Failed { reason: Seq<char> },
}

impl View for DirectoryAnswer {
    type V = DirectoryAnswerView;

    open spec fn view(&self) -> DirectoryAnswerView {
        match self {
            DirectoryAnswer::Entries { entries } => DirectoryAnswerView::Entries {
                entries: entries.deep_view(),
            },
            DirectoryAnswer::NotFound => DirectoryAnswerView::NotFound,
            DirectoryAnswer::InvalidPath { reason } => DirectoryAnswerView::InvalidPath {
                reason: reason@,
            },
            DirectoryAnswer::Failed { reason } => DirectoryAnswerView::Failed { reason: reason@ },
        }
    }
}

impl DeepView for DirectoryAnswer {
    type V = DirectoryAnswerView;

    open spec fn deep_view(&self) -> DirectoryAnswerView {
        self@
    }
}

impl Clone for DirectoryAnswer {
    fn clone(&self) -> (r: Self)
        ensures
            r@ == self@,
    {
        match self {
            DirectoryAnswer::Entries { entries } => {
                let entries_copy = entries.clone();
                assert(entries_copy.deep_view() =~= entries.deep_view());
                DirectoryAnswer::Entries { entries: entries_copy }
            },
            DirectoryAnswer::NotFound => DirectoryAnswer::NotFound,
            DirectoryAnswer::InvalidPath { reason } => DirectoryAnswer::InvalidPath {
                reason: reason.clone(),
            },
            DirectoryAnswer::Failed { reason } => DirectoryAnswer::Failed {
                reason: reason.clone(),
            },
        }
    }
}

/// A tenant's user who owns skills.
#[derive(Debug, PartialEq, Eq)]
pub struct SkillOwner {
    pub tenant_id: TenantId,
    pub user_id: UserId,
    pub scope: ResourceScope,
}

/// The mathematical value of a [`SkillOwner`].
#[verifier::ext_equal]
pub struct SkillOwnerView {
    pub tenant_id: Seq<char>,
    pub user_id: Seq<char>,
    pub scope: ResourceScopeView,
}

impl View for SkillOwner {
    type V = SkillOwnerView;

    open spec fn view(&self) -> SkillOwnerView {
        SkillOwnerView {
            tenant_id: self.tenant_id@,
            user_id: self.user_id@,
            scope: self.scope@,
        }
    }
}

impl DeepView for SkillOwner {
    type V = SkillOwnerView;

    open spec fn deep_view(&self) -> SkillOwnerView {
        self@
    }
}

impl Clone for SkillOwner {
    fn clone(&self) -> (r: Self)
        ensures
            r@ == self@,
    {
        SkillOwner {
            tenant_id: self.tenant_id.clone(),
            user_id: self.user_id.clone(),
            scope: self.scope.clone(),
        }
    }
}

/// The skill directories of a user, as far as read.
#[derive(Debug, PartialEq, Eq)]
pub enum SkillsListing {
    Unread,
    Failed { error: RebornBuildError },
    Listed { names: Vec<String> },
}

/// The mathematical value of a [`SkillsListing`].
#[verifier::ext_equal]
pub enum SkillsListingView {
    Unread,
    Failed { error: RebornBuildErrorView },
    Listed { names: Seq<Seq<char>> },
}

impl View for SkillsListing {
    type V = SkillsListingView;

    open spec fn view(&self) -> SkillsListingView {
        match self {
            SkillsListing::Unread => SkillsListingView::Unread,
            SkillsListing::Failed { error } => SkillsListingView::Failed { error: error@ },
            SkillsListing::Listed { names } => SkillsListingView::Listed {
                names: names.deep_view(),
            },
        }
    }
}

impl DeepView for SkillsListing {
    type V = SkillsListingView;

    open spec fn deep_view(&self) -> SkillsListingView {
        self@
    }
}

impl Clone for SkillsListing {
    fn clone(&self) -> (r: Self)
        ensures
            r@ == self@,
    {
        match self {
            SkillsListing::Unread => SkillsListing::Unread,
            SkillsListing::Failed { error } => SkillsListing::Failed { error: error.clone() },
            SkillsListing::Listed { names } => {
                let names_copy = names.clone();
                assert(names_copy.deep_view() =~= names.deep_view());
                SkillsListing::Listed { names: names_copy }
            },
        }
    }
}

/// A user directory.
#[derive(Debug, PartialEq, Eq)]
pub struct UserNode {
    pub name: String,
    /// Whether the name is a valid user id.
    pub valid: bool,
    /// Scope of the user under this tenant.
    pub scope: ResourceScope,
    pub skills: SkillsListing,
}

/// The mathematical value of a [`UserNode`].
#[verifier::ext_equal]
pub struct UserNodeView {
    pub name: Seq<char>,
    pub valid: bool,
    pub scope: ResourceScopeView,
    pub skills: SkillsListingView,
}

impl View for UserNode {
    type V = UserNodeView;

    open spec fn view(&self) -> UserNodeView {
        UserNodeView {
            name: self.name@,
            valid: self.valid,
            scope: self.scope@,
            skills: self.skills@,
        }
    }
}

impl DeepView for UserNode {
    type V = UserNodeView;

    open spec fn deep_view(&self) -> UserNodeView {
        self@
    }
}

impl Clone for UserNode {
    fn clone(&self) -> (r: Self)
        ensures
            r@ == self@,
    {
        UserNode {
            name: self.name.clone(),
            valid: self.valid,
            scope: self.scope.clone(),
            skills: self.skills.clone(),
        }
    }
}

/// The user directories of a tenant, as far as read.
#[derive(Debug, PartialEq, Eq)]
pub enum UsersListing {
    Unread,
    Failed { error: RebornBuildError },
    Listed { users: Vec<UserNode> },
}

/// The mathematical value of a [`UsersListing`].
#[verifier::ext_equal]
pub enum UsersListingView {
    Unread,
    Failed { error: RebornBuildErrorView },
    Listed { users: Seq<UserNodeView> },
}

impl View for UsersListing {
    type V = UsersListingView;

    open spec fn view(&self) -> UsersListingView {
        match self {
            UsersListing::Unread => UsersListingView::Unread,
            UsersListing::Failed { error } => UsersListingView::Failed { error: error@ },
            UsersListing::Listed { users } => UsersListingView::Listed { users: users.deep_view() },
        }
    }
}

impl DeepView for UsersListing {
    type V = UsersListingView;

    open spec fn deep_view(&self) -> UsersListingView {
        self@
    }
}

impl Clone for UsersListing {
    fn clone(&self) -> (r: Self)
        ensures
            r@ == self@,
    {
        match self {
            UsersListing::Unread => UsersListing::Unread,
            UsersListing::Failed { error } => UsersListing::Failed { error: error.clone() },
            UsersListing::Listed { users } => {
                let users_copy = users.clone();
                assert(users_copy.deep_view() =~= users.deep_view());
                UsersListing::Listed { users: users_copy }
            },
        }
    }
}

/// A tenant directory.
#[derive(Debug, PartialEq, Eq)]
pub struct TenantNode {
    pub name: String,
    /// Whether the name is a valid tenant id.
    pub valid: bool,
    pub users: UsersListing,
}

/// The mathematical value of a [`TenantNode`].
#[verifier::ext_equal]
pub struct TenantNodeView {
    pub name: Seq<char>,
    pub valid: bool,
    pub users: UsersListingView,
}

impl View for TenantNode {
    type V = TenantNodeView;

    open spec fn view(&self) -> TenantNodeView {
        TenantNodeView {
            name: self.name@,
            valid: self.valid,
            users: self.users@,
        }
    }
}

impl DeepView for TenantNode {
    type V = TenantNodeView;

    open spec fn deep_view(&self) -> TenantNodeView {
        self@
    }
}

impl Clone for TenantNode {
    fn clone(&self) -> (r: Self)
        ensures
            r@ == self@,
    {
        TenantNode {
            name: self.name.clone(),
            valid: self.valid,
            users: self.users.clone(),
        }
    }
}

/// The tenant directories of the store, as far as read.
#[derive(Debug, PartialEq, Eq)]
pub enum TenantsListing {
    Unread,
    Failed { error: RebornBuildError },
    Listed { tenants: Vec<TenantNode> },
}

/// The mathematical value of a [`TenantsListing`].
#[verifier::ext_equal]
pub enum TenantsListingView {
    Unread,
    Failed { error: RebornBuildErrorView },
    Listed { tenants: Seq<TenantNodeView> },
}

impl View for TenantsListing {
    type V = TenantsListingView;

    open spec fn view(&self) -> TenantsListingView {
        match self {
            TenantsListing::Unread => TenantsListingView::Unread,
            TenantsListing::Failed { error } => TenantsListingView::Failed { error: error@ },
            TenantsListing::Listed { tenants } => TenantsListingView::Listed {
                tenants: tenants.deep_view(),
            },
        }
    }
}

impl DeepView for TenantsListing {
    type V = TenantsListingView;

    open spec fn deep_view(&self) -> TenantsListingView {
        self@
    }
}

impl Clone for TenantsListing {
    fn clone(&self) -> (r: Self)
        ensures
            r@ == self@,
    {
        match self {
            TenantsListing::Unread => TenantsListing::Unread,
            TenantsListing::Failed { error } => TenantsListing::Failed { error: error.clone() },
            TenantsListing::Listed { tenants } => {
                let tenants_copy = tenants.clone();
                assert(tenants_copy.deep_view() =~= tenants.deep_view());
                TenantsListing::Listed { tenants: tenants_copy }
            },
        }
    }
}

/// A directory to read.
#[derive(Debug, PartialEq, Eq)]
pub enum WalkQuestion {
    /// The tenants.
    Tenants,
    /// The users of a tenant.
    Users { tenant: String },
    /// The skills of a user.
    Skills { tenant: String, user: String },
}

/// The mathematical value of a [`WalkQuestion`].
#[verifier::ext_equal]
pub enum WalkQuestionView {
    Tenants,
    Users { tenant: Seq<char> },
    Skills { tenant: Seq<char>, user: Seq<char> },
}

impl View for WalkQuestion {
    type V = WalkQuestionView;

    open spec fn view(&self) -> WalkQuestionView {
        match self {
            WalkQuestion::Tenants => WalkQuestionView::Tenants,
            WalkQuestion::Users { tenant } => WalkQuestionView::Users { tenant: tenant@ },
            WalkQuestion::Skills { tenant, user } => WalkQuestionView::Skills {
                tenant: tenant@,
                user: user@,
            },
        }
    }
}

impl DeepView for WalkQuestion {
    type V = WalkQuestionView;

    open spec fn deep_view(&self) -> WalkQuestionView {
        self@
    }
}

impl Clone for WalkQuestion {
    fn clone(&self) -> (r: Self)
        ensures
            r@ == self@,
    {
        match self {
            WalkQuestion::Tenants => WalkQuestion::Tenants,
            WalkQuestion::Users { tenant } => WalkQuestion::Users { tenant: tenant.clone() },
            WalkQuestion::Skills { tenant, user } => WalkQuestion::Skills {
                tenant: tenant.clone(),
                user: user.clone(),
            },
        }
    }
}

/// What a walk through the store comes to.
#[derive(Debug, PartialEq, Eq)]
pub enum WalkOutcome {
    /// This directory has to be read.
    Read { question: WalkQuestion },
    Failed { error: RebornBuildError },
    Owners { owners: Vec<SkillOwner> },
}

/// The mathematical value of a [`WalkOutcome`].
#[verifier::ext_equal]
pub enum WalkOutcomeView {
    Read { question: WalkQuestionView },
    Failed { error: RebornBuildErrorView },
    Owners { owners: Seq<SkillOwnerView> },
}

impl View for WalkOutcome {
    type V = WalkOutcomeView;

    open spec fn view(&self) -> WalkOutcomeView {
        match self {
            WalkOutcome::Read { question } => WalkOutcomeView::Read { question: question@ },
            WalkOutcome::Failed { error } => WalkOutcomeView::Failed { error: error@ },
            WalkOutcome::Owners { owners } => WalkOutcomeView::Owners {
                owners: owners.deep_view(),
            },
        }
    }
}

impl DeepView for WalkOutcome {
    type V = WalkOutcomeView;

    open spec fn deep_view(&self) -> WalkOutcomeView {
        self@
    }
}

impl Clone for WalkOutcome {
    fn clone(&self) -> (r: Self)
        ensures
            r@ == self@,
    {
        match self {
            WalkOutcome::Read { question } => WalkOutcome::Read { question: question.clone() },
            WalkOutcome::Failed { error } => WalkOutcome::Failed { error: error.clone() },
            WalkOutcome::Owners { owners } => {
                let owners_copy = owners.clone();
                assert(owners_copy.deep_view() =~= owners.deep_view());
                WalkOutcome::Owners { owners: owners_copy }
            },
        }
    }
}

/// Whether an entry is a directory.
pub open spec fn is_directory() -> spec_fn(DirectoryEntryView) -> bool {
    |entry: DirectoryEntryView| entry.is_directory
}

/// The names of some entries.
pub open spec fn entry_names(entries: Seq<DirectoryEntryView>) -> Seq<Seq<char>> {
    entries.map_values(|entry: DirectoryEntryView| entry.name)
}

/// The child directories an answer tells of. A directory that does not exist has
/// none; every other failure is an error.
pub open spec fn children_of(answer: DirectoryAnswerView) -> Result<
    Seq<Seq<char>>,
    RebornBuildErrorView,
> {
    match answer {
        DirectoryAnswerView::Entries { entries } => Ok(
            entry_names(entries.filter(is_directory())),
        ),
        DirectoryAnswerView::NotFound => Ok(Seq::empty()),
        DirectoryAnswerView::InvalidPath { reason } => Err(RebornBuildErrorView::Mount { reason }),
        DirectoryAnswerView::Failed { reason } => Err(
            RebornBuildErrorView::Filesystem { reason },
        ),
    }
}

/// The child directories an answer tells of.
pub fn child_directories(answer: DirectoryAnswer) -> (r: Result<Vec<String>, RebornBuildError>)
    ensures
        outcome(r) == children_of(answer@),
{
    match answer {
        DirectoryAnswer::NotFound => {
            let none: Vec<String> = Vec::new();
            assert(none.deep_view() =~= Seq::empty());
            Ok(none)
        },
        DirectoryAnswer::InvalidPath { reason } => Err(RebornBuildError::Mount { reason }),
        DirectoryAnswer::Failed { reason } => Err(RebornBuildError::Filesystem { reason }),
        DirectoryAnswer::Entries { entries } => {
            let ghost views = entries.deep_view();
            let mut out: Vec<String> = Vec::new();
            let mut i: usize = 0;
            proof {
                reveal(Seq::filter);
            }
            assert(out.deep_view() =~= entry_names(views.take(0).filter(is_directory())));
            while i < entries.len()
                invariant
                    views == entries.deep_view(),
                    i <= entries@.len(),
                    out.deep_view() == entry_names(views.take(i as int).filter(is_directory())),
                decreases entries@.len() - i,
            {
                let ghost before = out.deep_view();
                proof {
                    reveal(Seq::filter);
                    assert(views.take(i + 1).drop_last() =~= views.take(i as int));
                    assert(views.take(i + 1).last() == entries@[i as int]@);
                }
                if entries[i].is_directory {
                    let name = entries[i].name.clone();
                    let ghost added = name@;
                    out.push(name);
                    assert(out.deep_view() =~= before.push(added));
                }
                assert(out.deep_view() =~= entry_names(
                    views.take(i + 1).filter(is_directory()),
                ));
                i = i + 1;
            }
            assert(views.take(views.len() as int) =~= views);
            Ok(out)
        },
    }
}

impl WalkQuestionView {
    /// The path of the directory.
    pub open spec fn path(self) -> Seq<char> {
        match self {
            WalkQuestionView::Tenants => "/tenants"@,
            WalkQuestionView::Users { tenant } => "/tenants/"@ + tenant + "/users"@,
            WalkQuestionView::Skills { tenant, user } => "/tenants/"@ + tenant + "/users"@ + "/"@
                + user + "/skills"@,
        }
    }
}

impl WalkQuestion {
    /// The path of the directory.
    pub fn path(&self) -> (r: String)
        ensures
            r@ == self@.path(),
    {
        match self {
            WalkQuestion::Tenants => "/tenants".to_string(),
            WalkQuestion::Users { tenant } => joined3("/tenants/", tenant.as_str(), "/users"),
            WalkQuestion::Skills { tenant, user } => {
                let users = joined3("/tenants/", tenant.as_str(), "/users");
                let base = joined3(users.as_str(), "/", user.as_str());
                joined(base.as_str(), "/skills")
            },
        }
    }
}

/// Whether an owner is listed.
pub open spec fn lists_owner(owners: Seq<SkillOwnerView>, tenant: Seq<char>, user: Seq<char>) -> bool {
    exists|k: int|
        0 <= k < owners.len() && (#[trigger] owners[k]).tenant_id == tenant && owners[k].user_id
            == user
}

/// The owners after the users of a tenant were walked: those with a valid id and
/// at least one skill are added, unless they are listed already.
pub open spec fn walk_users(
    tenant: Seq<char>,
    users: Seq<UserNodeView>,
    owners: Seq<SkillOwnerView>,
) -> WalkOutcomeView
    decreases users.len(),
{
    if users.len() == 0 {
        WalkOutcomeView::Owners { owners }
    } else if !users[0].valid || lists_owner(owners, tenant, users[0].name) {
        walk_users(tenant, users.drop_first(), owners)
    } else {
        match users[0].skills {
            SkillsListingView::Unread => WalkOutcomeView::Read {
                question: WalkQuestionView::Skills { tenant, user: users[0].name },
            },
            SkillsListingView::Failed { error } => WalkOutcomeView::Failed { error },
            SkillsListingView::Listed { names } => if names.len() == 0 {
                walk_users(tenant, users.drop_first(), owners)
            } else {
                walk_users(
                    tenant,
                    users.drop_first(),
                    owners.push(
                        SkillOwnerView {
                            tenant_id: tenant,
                            user_id: users[0].name,
                            scope: users[0].scope,
                        },
                    ),
                )
            },
        }
    }
}

/// The owners after some tenants were walked. A directory whose name is no
/// tenant id is passed over.
pub open spec fn walk_tenants(
    tenants: Seq<TenantNodeView>,
    owners: Seq<SkillOwnerView>,
) -> WalkOutcomeView
    decreases tenants.len(),
{
    if tenants.len() == 0 {
        WalkOutcomeView::Owners { owners }
    } else if !tenants[0].valid {
        walk_tenants(tenants.drop_first(), owners)
    } else {
        match tenants[0].users {
            UsersListingView::Unread => WalkOutcomeView::Read {
                question: WalkQuestionView::Users { tenant: tenants[0].name },
            },
            UsersListingView::Failed { error } => WalkOutcomeView::Failed { error },
            UsersListingView::Listed { users } => match walk_users(
                tenants[0].name,
                users,
                owners,
            ) {
                WalkOutcomeView::Owners { owners: more } => walk_tenants(
                    tenants.drop_first(),
                    more,
                ),
                other => other,
            },
        }
    }
}

/// The owners of the store, the configured one first.
pub open spec fn walk_store(tenants: TenantsListingView, configured: SkillOwnerView) -> WalkOutcomeView {
    match tenants {
        TenantsListingView::Unread => WalkOutcomeView::Read { question: WalkQuestionView::Tenants },
        TenantsListingView::Failed { error } => WalkOutcomeView::Failed { error },
        TenantsListingView::Listed { tenants } => walk_tenants(tenants, seq![configured]),
    }
}

fn owner_listed(owners: &Vec<SkillOwner>, tenant: &String, user: &String) -> (r: bool)
    ensures
        r == lists_owner(owners.deep_view(), tenant@, user@),
{
    let ghost views = owners.deep_view();
    let mut i: usize = 0;
    while i < owners.len()
        invariant
            views == owners.deep_view(),
            i <= owners@.len(),
            forall|k: int|
                0 <= k < i ==> !((#[trigger] views[k]).tenant_id == tenant@ && views[k].user_id
                    == user@),
        decreases owners@.len() - i,
    {
        assert(views[i as int] == owners@[i as int]@);
        if owners[i].tenant_id == *tenant && owners[i].user_id == *user {
            return true;
        }
        i = i + 1;
    }
    false
}

/// Walks the users of a tenant.
pub fn discover_tenant_owners(
    tenant: &String,
    users: &Vec<UserNode>,
    listed: Vec<SkillOwner>,
) -> (r: WalkOutcome)
    ensures
        r@ == walk_users(tenant@, users.deep_view(), listed.deep_view()),
{
    let mut owners = listed;
    let ghost start = owners.deep_view();
    let ghost views = users.deep_view();
    let mut i: usize = 0;
    assert(views.skip(0) =~= views);
    while i < users.len()
        invariant
            views == users.deep_view(),
            start == listed.deep_view(),
            i <= users@.len(),
            walk_users(tenant@, views, start) == walk_users(
                tenant@,
                views.skip(i as int),
                owners.deep_view(),
            ),
        decreases users@.len() - i,
    {
        let user = &users[i];
        let ghost rest = views.skip(i as int);
        let ghost before = owners.deep_view();
        proof {
            assert(rest[0] == user@);
            assert(rest.drop_first() =~= views.skip(i + 1));
        }
        if user.valid && !owner_listed(&owners, tenant, &user.name) {
            match &user.skills {
                SkillsListing::Unread => {
                    return WalkOutcome::Read {
                        question: WalkQuestion::Skills {
                            tenant: tenant.clone(),
                            user: user.name.clone(),
                        },
                    };
                },
                SkillsListing::Failed { error } => {
                    return WalkOutcome::Failed { error: error.clone() };
                },
                SkillsListing::Listed { names } => {
                    assert(names.deep_view().len() == names@.len());
                    if !names.is_empty() {
                        let owner = SkillOwner {
                            tenant_id: tenant.clone(),
                            user_id: user.name.clone(),
                            scope: user.scope.clone(),
                        };
                        let ghost added = owner@;
                        owners.push(owner);
                        assert(owners.deep_view() =~= before.push(added));
                    }
                },
            }
        }
        i = i + 1;
    }
    WalkOutcome::Owners { owners }
}

/// Walks the store for owners with at least one skill. The configured owner
/// comes first, is listed even without skills, and is never listed twice.
pub fn discover_skill_owners(tenants: &TenantsListing, configured: SkillOwner) -> (r: WalkOutcome)
    ensures
        r@ == walk_store(tenants@, configured@),
{
    let nodes = match tenants {
        TenantsListing::Unread => {
            return WalkOutcome::Read { question: WalkQuestion::Tenants };
        },
        TenantsListing::Failed { error } => return WalkOutcome::Failed { error: error.clone() },
        TenantsListing::Listed { tenants } => tenants,
    };
    let mut owners: Vec<SkillOwner> = Vec::new();
    owners.push(configured);
    let ghost start = owners.deep_view();
    assert(start =~= seq![configured@]);
    let ghost views = nodes.deep_view();
    let mut i: usize = 0;
    assert(views.skip(0) =~= views);
    while i < nodes.len()
        invariant
            views == nodes.deep_view(),
            tenants@ == (TenantsListingView::Listed { tenants: views }),
            i <= nodes@.len(),
            walk_tenants(views, start) == walk_tenants(views.skip(i as int), owners.deep_view()),
            walk_tenants(views, start) == walk_store(
                TenantsListingView::Listed { tenants: views },
                configured@,
            ),
        decreases nodes@.len() - i,
    {
        let tenant = &nodes[i];
        let ghost rest = views.skip(i as int);
        proof {
            assert(rest[0] == tenant@);
            assert(rest.drop_first() =~= views.skip(i + 1));
        }
        if tenant.valid {
            match &tenant.users {
                UsersListing::Unread => {
                    return WalkOutcome::Read {
                        question: WalkQuestion::Users { tenant: tenant.name.clone() },
                    };
                },
                UsersListing::Failed { error } => {
                    return WalkOutcome::Failed { error: error.clone() };
                },
                UsersListing::Listed { users } => {
                    match discover_tenant_owners(&tenant.name, users, owners) {
                        WalkOutcome::Owners { owners: more } => {
                            owners = more;
                        },
                        WalkOutcome::Read { question } => {
                            return WalkOutcome::Read { question };
                        },
                        WalkOutcome::Failed { error } => return WalkOutcome::Failed { error },
                    }
                },
            }
        }
        i = i + 1;
    }
    WalkOutcome::Owners { owners }
}

/// What is found at the storage root.
#[derive(Debug, PartialEq, Eq)]
pub enum RootInspection {
    /// It could not be inspected.
    InspectFailed { error: String },
    /// Nothing.
    Missing,
    /// Something else than a directory.
    NotADirectory,
    /// A directory.
    Directory,
}

/// The mathematical value of a [`RootInspection`].
#[verifier::ext_equal]
pub enum RootInspectionView {
    InspectFailed { error: Seq<char> },
    Missing,
    NotADirectory,
    Directory,
}

impl View for RootInspection {
    type V = RootInspectionView;

    open spec fn view(&self) -> RootInspectionView {
        match self {
            RootInspection::InspectFailed { error } => RootInspectionView::InspectFailed {
                error: error@,
            },
            RootInspection::Missing => RootInspectionView::Missing,
            RootInspection::NotADirectory => RootInspectionView::NotADirectory,
            RootInspection::Directory => RootInspectionView::Directory,
        }
    }
}

impl DeepView for RootInspection {
    type V = RootInspectionView;

    open spec fn deep_view(&self) -> RootInspectionView {
        self@
    }
}

impl Clone for RootInspection {
    fn clone(&self) -> (r: Self)
        ensures
            r@ == self@,
    {
        match self {
            RootInspection::InspectFailed { error } => RootInspection::InspectFailed {
                error: error.clone(),
            },
            RootInspection::Missing => RootInspection::Missing,
            RootInspection::NotADirectory => RootInspection::NotADirectory,
            RootInspection::Directory => RootInspection::Directory,
        }
    }
}

/// Every owner the store knows about.
#[derive(Debug, PartialEq, Eq)]
pub struct SkillListingSource {
    pub owners: Vec<SkillOwner>,
}

/// The mathematical value of a [`SkillListingSource`].
#[verifier::ext_equal]
pub struct SkillListingSourceView {
    pub owners: Seq<SkillOwnerView>,
}

impl View for SkillListingSource {
    type V = SkillListingSourceView;

    open spec fn view(&self) -> SkillListingSourceView {
        SkillListingSourceView {
            owners: self.owners.deep_view(),
        }
    }
}

impl DeepView for SkillListingSource {
    type V = SkillListingSourceView;

    open spec fn deep_view(&self) -> SkillListingSourceView {
        self@
    }
}

impl Clone for SkillListingSource {
    fn clone(&self) -> (r: Self)
        ensures
            r@ == self@,
    {
        let r = SkillListingSource {
            owners: self.owners.clone(),
        };
        assert(r.owners.deep_view() =~= self.owners.deep_view());
        r
    }
}

/// What opening the store for listing comes to.
#[derive(Debug, PartialEq, Eq)]
pub enum OpenOutcome {
    /// There is no store yet.
    NoSource,
    /// This directory has to be read.
    Read { question: WalkQuestion },
    Failed { error: RebornBuildError },
    Open { source: SkillListingSource },
}

/// The mathematical value of a [`OpenOutcome`].
#[verifier::ext_equal]
pub enum OpenOutcomeView {
    NoSource,
    Read { question: WalkQuestionView },
    Failed { error: RebornBuildErrorView },
    Open { source: SkillListingSourceView },
}

impl View for OpenOutcome {
    type V = OpenOutcomeView;

    open spec fn view(&self) -> OpenOutcomeView {
        match self {
            OpenOutcome::NoSource => OpenOutcomeView::NoSource,
            OpenOutcome::Read { question } => OpenOutcomeView::Read { question: question@ },
            OpenOutcome::Failed { error } => OpenOutcomeView::Failed { error: error@ },
            OpenOutcome::Open { source } => OpenOutcomeView::Open { source: source@ },
        }
    }
}

impl DeepView for OpenOutcome {
    type V = OpenOutcomeView;

    open spec fn deep_view(&self) -> OpenOutcomeView {
        self@
    }
}

impl Clone for OpenOutcome {
    fn clone(&self) -> (r: Self)
        ensures
            r@ == self@,
    {
        match self {
            OpenOutcome::NoSource => OpenOutcome::NoSource,
            OpenOutcome::Read { question } => OpenOutcome::Read { question: question.clone() },
            OpenOutcome::Failed { error } => OpenOutcome::Failed { error: error.clone() },
            OpenOutcome::Open { source } => OpenOutcome::Open { source: source.clone() },
        }
    }
}

/// Whether there is a store to open; an error if what is there is none.
pub open spec fn root_of(inspection: RootInspectionView) -> Result<bool, RebornBuildErrorView> {
    match inspection {
        RootInspectionView::InspectFailed { error } => Err(
            RebornBuildErrorView::InvalidConfig {
                reason: "local runtime skill storage root could not be inspected: "@ + error,
            },
        ),
        RootInspectionView::Missing => Ok(false),
        RootInspectionView::NotADirectory => Err(
            RebornBuildErrorView::InvalidConfig {
                reason: "local runtime skill storage root is not a directory"@,
            },
        ),
        RootInspectionView::Directory => Ok(true),
    }
}

/// Whether there is a store to open. A missing root is none, and is not created.
pub fn inspect_storage_root(inspection: &RootInspection) -> (r: Result<bool, RebornBuildError>)
    ensures
        outcome(r) == root_of(inspection@),
{
    match inspection {
        RootInspection::InspectFailed { error } => Err(
            RebornBuildError::InvalidConfig {
                reason: joined(
                    "local runtime skill storage root could not be inspected: ",
                    error.as_str(),
                ),
            },
        ),
        RootInspection::Missing => Ok(false),
        RootInspection::NotADirectory => Err(
            RebornBuildError::InvalidConfig {
                reason: "local runtime skill storage root is not a directory".to_string(),
            },
        ),
        RootInspection::Directory => Ok(true),
    }
}

/// What opening the store comes to. `durable` tells whether a database was
/// mounted; without one the configured owner is the only one.
pub open spec fn opened(
    inspection: RootInspectionView,
    durable: Result<bool, RebornBuildErrorView>,
    disk: Result<(), RebornBuildErrorView>,
    projects: Result<(), RebornBuildErrorView>,
    configured: SkillOwnerView,
    tenants: TenantsListingView,
) -> OpenOutcomeView {
    match (root_of(inspection), durable, disk, projects) {
        (Err(error), _, _, _) => OpenOutcomeView::Failed { error },
        (Ok(false), _, _, _) => OpenOutcomeView::NoSource,
        (Ok(true), Err(error), _, _) => OpenOutcomeView::Failed { error },
        (Ok(true), Ok(_), Err(error), _) => OpenOutcomeView::Failed { error },
        (Ok(true), Ok(_), Ok(()), Err(error)) => OpenOutcomeView::Failed { error },
        (Ok(true), Ok(false), Ok(()), Ok(())) => OpenOutcomeView::Open {
            source: SkillListingSourceView { owners: seq![configured] },
        },
        (Ok(true), Ok(true), Ok(()), Ok(())) => match walk_store(tenants, configured) {
            WalkOutcomeView::Read { question } => OpenOutcomeView::Read { question },
            WalkOutcomeView::Failed { error } => OpenOutcomeView::Failed { error },
            WalkOutcomeView::Owners { owners } => OpenOutcomeView::Open {
                source: SkillListingSourceView { owners },
            },
        },
    }
}

/// Opens the store for listing, from what the host found at its root, what each
/// mount gave, and the directories read so far.
pub fn open_skill_listing_source(
    inspection: &RootInspection,
    durable: Result<bool, RebornBuildError>,
    disk: Result<(), RebornBuildError>,
    projects: Result<(), RebornBuildError>,
    configured: SkillOwner,
    tenants: &TenantsListing,
) -> (r: OpenOutcome)
    ensures
        r@ == opened(
            inspection@,
            outcome(durable),
            outcome(disk),
            outcome(projects),
            configured@,
            tenants@,
        ),
{
    match inspect_storage_root(inspection) {
        Err(error) => return OpenOutcome::Failed { error },
        Ok(false) => return OpenOutcome::NoSource,
        Ok(true) => {},
    }
    let durable_mounted = match durable {
        Err(error) => return OpenOutcome::Failed { error },
        Ok(mounted) => mounted,
    };
    match disk {
        Err(error) => return OpenOutcome::Failed { error },
        Ok(()) => {},
    }
    match projects {
        Err(error) => return OpenOutcome::Failed { error },
        Ok(()) => {},
    }
    if !durable_mounted {
        let mut owners: Vec<SkillOwner> = Vec::new();
        owners.push(configured);
        assert(owners.deep_view() =~= seq![configured@]);
        return OpenOutcome::Open { source: SkillListingSource { owners } };
    }
    match discover_skill_owners(tenants, configured) {
        WalkOutcome::Read { question } => OpenOutcome::Read { question },
        WalkOutcome::Failed { error } => OpenOutcome::Failed { error },
        WalkOutcome::Owners { owners } => OpenOutcome::Open {
            source: SkillListingSource { owners },
        },
    }
}

impl SkillListingSource {
    /// The owners, the configured one first.
    pub fn owners(&self) -> (r: &Vec<SkillOwner>)
        ensures
            r.deep_view() == self@.owners,
    {
        &self.owners
    }
}

/// No owner is listed twice.
pub open spec fn owners_distinct(owners: Seq<SkillOwnerView>) -> bool {
    forall|i: int, j: int|
        0 <= i < j < owners.len() ==> !((#[trigger] owners[i]).tenant_id == (
        #[trigger] owners[j]).tenant_id && owners[i].user_id == owners[j].user_id)
}

proof fn lemma_walk_users(tenant: Seq<char>, users: Seq<UserNodeView>, owners: Seq<SkillOwnerView>)
    requires
        owners.len() > 0,
        owners_distinct(owners),
    ensures
        walk_users(tenant, users, owners) matches WalkOutcomeView::Owners { owners: more } ==> {
            &&& more.len() >= owners.len()
            &&& more.take(owners.len() as int) == owners
            &&& owners_distinct(more)
        },
    decreases users.len(),
{
    if users.len() == 0 {
        assert(owners.take(owners.len() as int) =~= owners);
    } else {
        let rest = users.drop_first();
        lemma_walk_users(tenant, rest, owners);
        if users[0].valid && !lists_owner(owners, tenant, users[0].name) {
            let owner = SkillOwnerView {
                tenant_id: tenant,
                user_id: users[0].name,
                scope: users[0].scope,
            };
            let longer = owners.push(owner);
            assert forall|i: int, j: int| 0 <= i < j < longer.len() implies !((
            #[trigger] longer[i]).tenant_id == (#[trigger] longer[j]).tenant_id
                && longer[i].user_id == longer[j].user_id) by {
                assert(longer[i] == owners[i]);
                if j < owners.len() {
                    assert(longer[j] == owners[j]);
                }
            }
            lemma_walk_users(tenant, rest, longer);
            if let WalkOutcomeView::Owners { owners: more } = walk_users(tenant, rest, longer) {
                assert(more.take(owners.len() as int) =~= more.take(longer.len() as int).take(
                    owners.len() as int,
                ));
                assert(longer.take(owners.len() as int) =~= owners);
            }
        }
    }
}

proof fn lemma_walk_tenants(tenants: Seq<TenantNodeView>, owners: Seq<SkillOwnerView>)
    requires
        owners.len() > 0,
        owners_distinct(owners),
    ensures
        walk_tenants(tenants, owners) matches WalkOutcomeView::Owners { owners: more } ==> {
            &&& more.len() >= owners.len()
            &&& more.take(owners.len() as int) == owners
            &&& owners_distinct(more)
        },
    decreases tenants.len(),
{
    if tenants.len() == 0 {
        assert(owners.take(owners.len() as int) =~= owners);
    } else if !tenants[0].valid {
        lemma_walk_tenants(tenants.drop_first(), owners);
    } else if let UsersListingView::Listed { users } = tenants[0].users {
        lemma_walk_users(tenants[0].name, users, owners);
        if let WalkOutcomeView::Owners { owners: more } = walk_users(
            tenants[0].name,
            users,
            owners,
        ) {
            lemma_walk_tenants(tenants.drop_first(), more);
            if let WalkOutcomeView::Owners { owners: all } = walk_tenants(
                tenants.drop_first(),
                more,
            ) {
                assert(all.take(owners.len() as int) =~= all.take(more.len() as int).take(
                    owners.len() as int,
                ));
            }
        }
    }
}

/// However the store looks, the configured owner is listed first and no owner is
/// listed twice.
pub proof fn law_configured_owner_comes_first_and_once(
    tenants: TenantsListingView,
    configured: SkillOwnerView,
)
    ensures
        walk_store(tenants, configured) matches WalkOutcomeView::Owners { owners } ==> {
            &&& owners.len() > 0
            &&& owners[0] == configured
            &&& owners_distinct(owners)
        },
{
    if let TenantsListingView::Listed { tenants } = tenants {
        let start = seq![configured];
        assert(owners_distinct(start));
        lemma_walk_tenants(tenants, start);
        if let WalkOutcomeView::Owners { owners } = walk_tenants(tenants, start) {
            assert(owners.take(1)[0] == configured);
        }
    }
}

/// An empty store, or one without a database, lists the configured owner alone.
pub proof fn law_fresh_store_lists_the_configured_owner(configured: SkillOwnerView)
    ensures
        walk_store(TenantsListingView::Listed { tenants: Seq::empty() }, configured) == (
        WalkOutcomeView::Owners { owners: seq![configured] }),
        forall|tenants: TenantsListingView|
            #![trigger opened(
                RootInspectionView::Directory,
                Ok(false),
                Ok(()),
                Ok(()),
                configured,
                tenants,
            )]
            opened(
                RootInspectionView::Directory,
                Ok(false),
                Ok(()),
                Ok(()),
                configured,
                tenants,
            ) == (OpenOutcomeView::Open {
                source: SkillListingSourceView { owners: seq![configured] },
            }),
{
}

/// The child directories are the entries that are directories, by name and in order. A
/// directory that does not exist has none; any other failure is an error with its reason.
pub proof fn law_children_are_the_directories(
    entries: Seq<DirectoryEntryView>,
    entry: DirectoryEntryView,
    reason: Seq<char>,
)
    ensures
        children_of(DirectoryAnswerView::Entries { entries: Seq::empty() })->Ok_0.len() == 0,
        ({
            let before = children_of(DirectoryAnswerView::Entries { entries });
            let after = children_of(DirectoryAnswerView::Entries { entries: entries.push(entry) });
            &&& before is Ok && after is Ok
            &&& entry.is_directory ==> after->Ok_0 == before->Ok_0.push(entry.name)
            &&& !entry.is_directory ==> after->Ok_0 == before->Ok_0
        }),
        children_of(DirectoryAnswerView::NotFound) == Ok::<Seq<Seq<char>>, RebornBuildErrorView>(
            Seq::empty(),
        ),
        children_of(DirectoryAnswerView::InvalidPath { reason }) == Err::<
            Seq<Seq<char>>,
            RebornBuildErrorView,
        >(RebornBuildErrorView::Mount { reason }),
        children_of(DirectoryAnswerView::Failed { reason }) == Err::<
            Seq<Seq<char>>,
            RebornBuildErrorView,
        >(RebornBuildErrorView::Filesystem { reason }),
{
    reveal(Seq::filter);
    let longer = entries.push(entry);
    assert(longer.drop_last() =~= entries);
    let before = entries.filter(is_directory());
    if entry.is_directory {
        assert(entry_names(before.push(entry)) =~= entry_names(before).push(entry.name));
    }
}

/// The directories of the store: the tenants, the users of a tenant, and the skills of a
/// user, each under the one before.
pub proof fn law_store_is_laid_out_by_tenant_and_user(tenant: Seq<char>, user: Seq<char>)
    ensures
        WalkQuestionView::Tenants.path() == "/tenants"@,
        (WalkQuestionView::Users { tenant }).path() == WalkQuestionView::Tenants.path() + "/"@
            + tenant + "/users"@,
        (WalkQuestionView::Skills { tenant, user }).path() == (WalkQuestionView::Users {
            tenant,
        }).path() + "/"@ + user + "/skills"@,
{
    reveal_strlit("/tenants");
    reveal_strlit("/tenants/");
    reveal_strlit("/");
    assert("/tenants/"@ =~= "/tenants"@ + "/"@);
    assert("/tenants/"@ + tenant =~= "/tenants"@ + "/"@ + tenant);
}

proof fn lemma_walk_users_pushed(
    tenant: Seq<char>,
    users: Seq<UserNodeView>,
    user: UserNodeView,
    owners: Seq<SkillOwnerView>,
)
    ensures
        walk_users(tenant, users.push(user), owners) == match walk_users(tenant, users, owners) {
            WalkOutcomeView::Owners { owners: more } => walk_users(tenant, seq![user], more),
            other => other,
        },
    decreases users.len(),
{
    let longer = users.push(user);
    if users.len() == 0 {
        assert(longer =~= seq![user]);
    } else {
        assert(longer[0] == users[0]);
        assert(longer.drop_first() =~= users.drop_first().push(user));
        lemma_walk_users_pushed(tenant, users.drop_first(), user, owners);
        lemma_walk_users_pushed(
            tenant,
            users.drop_first(),
            user,
            owners.push(
                SkillOwnerView {
                    tenant_id: tenant,
                    user_id: users[0].name,
                    scope: users[0].scope,
                },
            ),
        );
    }
}

proof fn lemma_walk_tenants_pushed(
    tenants: Seq<TenantNodeView>,
    tenant: TenantNodeView,
    owners: Seq<SkillOwnerView>,
)
    ensures
        walk_tenants(tenants.push(tenant), owners) == match walk_tenants(tenants, owners) {
            WalkOutcomeView::Owners { owners: more } => walk_tenants(seq![tenant], more),
            other => other,
        },
    decreases tenants.len(),
{
    let longer = tenants.push(tenant);
    if tenants.len() == 0 {
        assert(longer =~= seq![tenant]);
    } else {
        assert(longer[0] == tenants[0]);
        assert(longer.drop_first() =~= tenants.drop_first().push(tenant));
        lemma_walk_tenants_pushed(tenants.drop_first(), tenant, owners);
        if let UsersListingView::Listed { users } = tenants[0].users {
            if let WalkOutcomeView::Owners { owners: more } = walk_users(
                tenants[0].name,
                users,
                owners,
            ) {
                lemma_walk_tenants_pushed(tenants.drop_first(), tenant, more);
            }
        }
    }
}

/// One more tenant directory is passed over if its name is no tenant id. Else its users
/// are asked for where they were not read, and a failure to read them fails the walk.
/// A tenant without users adds nobody; and what ended the walk before still ends it.
pub proof fn law_each_tenant_is_read(
    tenants: Seq<TenantNodeView>,
    tenant: TenantNodeView,
    configured: SkillOwnerView,
)
    ensures
        ({
            let before = walk_store(TenantsListingView::Listed { tenants }, configured);
            let after = walk_store(
                TenantsListingView::Listed { tenants: tenants.push(tenant) },
                configured,
            );
            let walked = before is Owners;
            &&& !walked ==> after == before
            &&& !tenant.valid ==> after == before
            &&& walked && tenant.valid && tenant.users is Unread ==> after == (
            WalkOutcomeView::Read { question: WalkQuestionView::Users { tenant: tenant.name } })
            &&& tenant.users matches UsersListingView::Failed { error } ==> (walked && tenant.valid
                ==> after == (WalkOutcomeView::Failed { error }))
            &&& tenant.users matches UsersListingView::Listed { users } ==> (users.len() == 0
                ==> after == before)
        }),
        walk_store(TenantsListingView::Unread, configured) == (WalkOutcomeView::Read {
            question: WalkQuestionView::Tenants,
        }),
{
    reveal_with_fuel(walk_tenants, 3);
    lemma_walk_tenants_pushed(tenants, tenant, seq![configured]);
    assert(seq![tenant].drop_first() =~= Seq::<TenantNodeView>::empty());
}

/// One more user directory of the last tenant adds its owner at the end, with its own
/// tenant, name and scope, exactly if its name is a user id, the owner is not listed yet,
/// and it holds a skill. Skills that were not read are asked for, and a failure to read
/// them fails the walk. Nothing else changes.
pub proof fn law_each_user_with_skills_is_an_owner(
    tenants: Seq<TenantNodeView>,
    name: Seq<char>,
    users: Seq<UserNodeView>,
    user: UserNodeView,
    configured: SkillOwnerView,
)
    ensures
        ({
            let short = TenantNodeView {
                name,
                valid: true,
                users: UsersListingView::Listed { users },
            };
            let long = TenantNodeView {
                name,
                valid: true,
                users: UsersListingView::Listed { users: users.push(user) },
            };
            let before = walk_store(
                TenantsListingView::Listed { tenants: tenants.push(short) },
                configured,
            );
            let after = walk_store(
                TenantsListingView::Listed { tenants: tenants.push(long) },
                configured,
            );
            match before {
                WalkOutcomeView::Owners { owners } => {
                    let listed = exists|k: int|
                        0 <= k < owners.len() && (#[trigger] owners[k]).tenant_id == name
                            && owners[k].user_id == user.name;
                    if !user.valid || listed {
                        after == before
                    } else {
                        match user.skills {
                            SkillsListingView::Unread => after == (WalkOutcomeView::Read {
                                question: WalkQuestionView::Skills { tenant: name, user: user.name },
                            }),
                            SkillsListingView::Failed { error } => after == (
                            WalkOutcomeView::Failed { error }),
                            SkillsListingView::Listed { names } => if names.len() == 0 {
                                after == before
                            } else {
                                after == (WalkOutcomeView::Owners {
                                    owners: owners.push(
                                        SkillOwnerView {
                                            tenant_id: name,
                                            user_id: user.name,
                                            scope: user.scope,
                                        },
                                    ),
                                })
                            },
                        }
                    }
                },
                _ => after == before,
            }
        }),
{
    let short = TenantNodeView { name, valid: true, users: UsersListingView::Listed { users } };
    let long = TenantNodeView {
        name,
        valid: true,
        users: UsersListingView::Listed { users: users.push(user) },
    };
    reveal_with_fuel(walk_tenants, 3);
    reveal_with_fuel(walk_users, 3);
    lemma_walk_tenants_pushed(tenants, short, seq![configured]);
    lemma_walk_tenants_pushed(tenants, long, seq![configured]);
    assert(seq![short].drop_first() =~= Seq::<TenantNodeView>::empty());
    assert(seq![long].drop_first() =~= Seq::<TenantNodeView>::empty());
    if let WalkOutcomeView::Owners { owners: more } = walk_tenants(tenants, seq![configured]) {
        lemma_walk_users_pushed(name, users, user, more);
        assert(seq![user].drop_first() =~= Seq::<UserNodeView>::empty());
    }
}

/// A root that is missing is no store; one that could not be inspected, or is no
/// directory, is an error that says so.
pub proof fn law_only_a_directory_is_a_store(inspection: RootInspectionView)
    ensures
        root_of(inspection) == Ok::<bool, RebornBuildErrorView>(true) <==> inspection is Directory,
        root_of(inspection) == Ok::<bool, RebornBuildErrorView>(false) <==> inspection is Missing,
        inspection is NotADirectory ==> root_of(inspection) == Err::<bool, RebornBuildErrorView>(
            RebornBuildErrorView::InvalidConfig {
                reason: "local runtime skill storage root is not a directory"@,
            },
        ),
        inspection matches RootInspectionView::InspectFailed { error } ==> root_of(inspection)
            == Err::<bool, RebornBuildErrorView>(
            RebornBuildErrorView::InvalidConfig {
                reason: "local runtime skill storage root could not be inspected: "@ + error,
            },
        ),
{
}

/// A store is opened only over a directory whose mounts all succeed, and fails with the
/// first that does not. Without a database its only owner is the configured one; with one
/// its owners are those that the walk finds.
pub proof fn law_store_opens_over_its_mounts(
    durable: Result<bool, RebornBuildErrorView>,
    disk: Result<(), RebornBuildErrorView>,
    projects: Result<(), RebornBuildErrorView>,
    configured: SkillOwnerView,
    tenants: TenantsListingView,
    inspection: RootInspectionView,
)
    ensures
        ({
            let result = opened(inspection, durable, disk, projects, configured, tenants);
            let there = inspection is Directory;
            let mounted = there && durable is Ok && disk is Ok && projects is Ok;
            let walk = walk_store(tenants, configured);
            &&& inspection is Missing ==> result is NoSource
            &&& root_of(inspection) matches Err(error) ==> result == (OpenOutcomeView::Failed {
                error,
            })
            &&& there && durable is Err ==> result == (OpenOutcomeView::Failed {
                error: durable->Err_0,
            })
            &&& there && durable is Ok && disk is Err ==> result == (OpenOutcomeView::Failed {
                error: disk->Err_0,
            })
            &&& there && durable is Ok && disk is Ok && projects is Err ==> result == (
            OpenOutcomeView::Failed { error: projects->Err_0 })
            &&& mounted && !durable->Ok_0 ==> result is Open && result->source.owners
                == seq![configured]
            &&& mounted && durable->Ok_0 ==> {
                &&& walk matches WalkOutcomeView::Owners { owners } ==> result is Open
                    && result->source.owners == owners
                &&& walk matches WalkOutcomeView::Read { question } ==> result == (
                OpenOutcomeView::Read { question })
                &&& walk matches WalkOutcomeView::Failed { error } ==> result == (
                OpenOutcomeView::Failed { error })
            }
        }),
{
}

} // verus!
