//! Skill management for one scope at a time.

use vstd::prelude::*;

use crate::grant::{MountView, MountViewView};
use crate::ids::UserId;
use crate::outcome::outcome;
use crate::scope::{ResourceScope, ResourceScopeView};
use crate::text::joined;

verus! {

/// What kind of failure skill management met.
#[derive(Debug, Clone, Copy, PartialEq, Eq, Structural)]
pub enum SkillManagementErrorKind {
    InvalidInput,
    NotFound,
    Conflict,
    InvalidSkill,
    FilesystemDenied,
    Resource,
}

/// A failure of skill management.
#[derive(Debug, PartialEq, Eq)]
pub struct SkillManagementError {
    pub kind: SkillManagementErrorKind,
    pub reason: Option<String>,
}

/// The mathematical value of a [`SkillManagementError`].
#[verifier::ext_equal]
pub struct SkillManagementErrorView {
    pub kind: SkillManagementErrorKind,
    pub reason: Option<Seq<char>>,
}

impl View for SkillManagementError {
    type V = SkillManagementErrorView;

    open spec fn view(&self) -> SkillManagementErrorView {
        SkillManagementErrorView {
            kind: self.kind,
            reason: self.reason.deep_view(),
        }
    }
}

impl DeepView for SkillManagementError {
    type V = SkillManagementErrorView;

    open spec fn deep_view(&self) -> SkillManagementErrorView {
        self@
    }
}

impl Clone for SkillManagementError {
    fn clone(&self) -> (r: Self)
        ensures
            r@ == self@,
    {
        let r = SkillManagementError {
            kind: self.kind,
            reason: self.reason.clone(),
        };
        assert(r.reason.deep_view() =~= self.reason.deep_view());
        r
    }
}

/// A failure of skill management in a scope.
#[derive(Debug, PartialEq, Eq)]
pub enum ScopedSkillManagementError {
    /// The scope has no valid mounts.
    InvalidContext { reason: String },
    /// Skill management itself failed.
    Skill(SkillManagementError),
}

/// The mathematical value of a [`ScopedSkillManagementError`].
#[verifier::ext_equal]
pub enum ScopedSkillManagementErrorView {
    InvalidContext { reason: Seq<char> },
    Skill(SkillManagementErrorView),
}

impl View for ScopedSkillManagementError {
    type V = ScopedSkillManagementErrorView;

    open spec fn view(&self) -> ScopedSkillManagementErrorView {
        match self {
            ScopedSkillManagementError::InvalidContext { reason } => ScopedSkillManagementErrorView::InvalidContext {
                reason: reason@,
            },
            ScopedSkillManagementError::Skill(a) => ScopedSkillManagementErrorView::Skill(a@),
        }
    }
}

impl DeepView for ScopedSkillManagementError {
    type V = ScopedSkillManagementErrorView;

    open spec fn deep_view(&self) -> ScopedSkillManagementErrorView {
        self@
    }
}

impl Clone for ScopedSkillManagementError {
    fn clone(&self) -> (r: Self)
        ensures
            r@ == self@,
    {
        match self {
            ScopedSkillManagementError::InvalidContext { reason } => ScopedSkillManagementError::InvalidContext {
                reason: reason.clone(),
            },
            ScopedSkillManagementError::Skill(a) => ScopedSkillManagementError::Skill(a.clone()),
        }
    }
}

/// What skill management works with: a scope and its mounts.
#[derive(Debug, PartialEq, Eq)]
pub struct SkillManagementContext {
    pub mounts: MountView,
    pub scope: ResourceScope,
}

/// The mathematical value of a [`SkillManagementContext`].
#[verifier::ext_equal]
pub struct SkillManagementContextView {
    pub mounts: MountViewView,
    pub scope: ResourceScopeView,
}

impl View for SkillManagementContext {
    type V = SkillManagementContextView;

    open spec fn view(&self) -> SkillManagementContextView {
        SkillManagementContextView {
            mounts: self.mounts@,
            scope: self.scope@,
        }
    }
}

impl DeepView for SkillManagementContext {
    type V = SkillManagementContextView;

    open spec fn deep_view(&self) -> SkillManagementContextView {
        self@
    }
}

impl Clone for SkillManagementContext {
    fn clone(&self) -> (r: Self)
        ensures
            r@ == self@,
    {
        SkillManagementContext {
            mounts: self.mounts.clone(),
            scope: self.scope.clone(),
        }
    }
}

/// Who installs a skill.
#[derive(Debug, Clone, Copy, PartialEq, Eq, Structural)]
pub enum SkillInstallSource {
    /// The user whose scope it is.
    User,
}

/// What is asked of skill management.
#[derive(Debug, PartialEq, Eq)]
pub enum SkillOperation {
    /// Every skill.
    List,
    /// Skills that match a query.
    Search { query: String, limit: usize },
    /// The content of a skill.
    ReadContent { name: String },
    /// New content for a skill.
    Update { name: String, content: String },
    /// A new skill: its files besides the content, by path, who installs it, and
    /// where it comes from.
    Install {
        requested_name: Option<String>,
        content: String,
        files: Vec<String>,
        source: SkillInstallSource,
        source_url: Option<String>,
    },
    /// No such skill any more.
    Remove { name: String },
}

/// The mathematical value of a [`SkillOperation`].
#[verifier::ext_equal]
pub enum SkillOperationView {
    List,
    Search { query: Seq<char>, limit: usize },
    ReadContent { name: Seq<char> },
    Update { name: Seq<char>, content: Seq<char> },
    Install {
        requested_name: Option<Seq<char>>,
        content: Seq<char>,
        files: Seq<Seq<char>>,
        source: SkillInstallSource,
        source_url: Option<Seq<char>>,
    },
    Remove { name: Seq<char> },
}

impl View for SkillOperation {
    type V = SkillOperationView;

    open spec fn view(&self) -> SkillOperationView {
        match self {
            SkillOperation::List => SkillOperationView::List,
            SkillOperation::Search { query, limit } => SkillOperationView::Search {
                query: query@,
                limit: *limit,
            },
            SkillOperation::ReadContent { name } => SkillOperationView::ReadContent { name: name@ },
            SkillOperation::Update { name, content } => SkillOperationView::Update {
                name: name@,
                content: content@,
            },
            SkillOperation::Install { requested_name, content, files, source, source_url } => {
                SkillOperationView::Install {
                    requested_name: requested_name.deep_view(),
                    content: content@,
                    files: files.deep_view(),
                    source: *source,
                    source_url: source_url.deep_view(),
                }
            },
            SkillOperation::Remove { name } => SkillOperationView::Remove { name: name@ },
        }
    }
}

impl DeepView for SkillOperation {
    type V = SkillOperationView;

    open spec fn deep_view(&self) -> SkillOperationView {
        self@
    }
}

impl Clone for SkillOperation {
    fn clone(&self) -> (r: Self)
        ensures
            r@ == self@,
    {
        match self {
            SkillOperation::List => SkillOperation::List,
            SkillOperation::Search { query, limit } => SkillOperation::Search {
                query: query.clone(),
                limit: *limit,
            },
            SkillOperation::ReadContent { name } => SkillOperation::ReadContent {
                name: name.clone(),
            },
            SkillOperation::Update { name, content } => SkillOperation::Update {
                name: name.clone(),
                content: content.clone(),
            },
            SkillOperation::Install { requested_name, content, files, source, source_url } => {
                let requested_name_copy = requested_name.clone();
                let files_copy = files.clone();
                let source_url_copy = source_url.clone();
                assert(requested_name_copy.deep_view() =~= requested_name.deep_view());
                assert(files_copy.deep_view() =~= files.deep_view());
                assert(source_url_copy.deep_view() =~= source_url.deep_view());
                SkillOperation::Install {
                    requested_name: requested_name_copy,
                    content: content.clone(),
                    files: files_copy,
                    source: *source,
                    source_url: source_url_copy,
                }
            },
            SkillOperation::Remove { name } => SkillOperation::Remove { name: name.clone() },
        }
    }
}

/// An operation with the context it runs in.
#[derive(Debug, PartialEq, Eq)]
pub struct SkillManagementCall {
    pub context: SkillManagementContext,
    pub operation: SkillOperation,
}

/// The mathematical value of a [`SkillManagementCall`].
#[verifier::ext_equal]
pub struct SkillManagementCallView {
    pub context: SkillManagementContextView,
    pub operation: SkillOperationView,
}

impl View for SkillManagementCall {
    type V = SkillManagementCallView;

    open spec fn view(&self) -> SkillManagementCallView {
        SkillManagementCallView {
            context: self.context@,
            operation: self.operation@,
        }
    }
}

impl DeepView for SkillManagementCall {
    type V = SkillManagementCallView;

    open spec fn deep_view(&self) -> SkillManagementCallView {
        self@
    }
}

impl Clone for SkillManagementCall {
    fn clone(&self) -> (r: Self)
        ensures
            r@ == self@,
    {
        SkillManagementCall {
            context: self.context.clone(),
            operation: self.operation.clone(),
        }
    }
}

impl ScopedSkillManagementError {
    /// The message of the error. A failure of skill management itself is shown
    /// by the given text.
    pub fn message(&self, skill: &str) -> (r: String)
        ensures
            r@ == match self@ {
                ScopedSkillManagementErrorView::InvalidContext { reason } =>
                    "invalid skill management context: "@ + reason,
                ScopedSkillManagementErrorView::Skill(_) => "skill management failed: "@ + skill@,
            },
    {
        match self {
            ScopedSkillManagementError::InvalidContext { reason } => joined(
                "invalid skill management context: ",
                reason.as_str(),
            ),
            ScopedSkillManagementError::Skill(_) => joined("skill management failed: ", skill),
        }
    }
}

impl From<SkillManagementError> for ScopedSkillManagementError {
    fn from(error: SkillManagementError) -> (r: Self) {
        ScopedSkillManagementError::Skill(error)
    }
}

impl vstd::std_specs::convert::FromSpecImpl<SkillManagementError> for ScopedSkillManagementError {
    open spec fn obeys_from_spec() -> bool {
        true
    }

    open spec fn from_spec(error: SkillManagementError) -> Self {
        ScopedSkillManagementError::Skill(error)
    }
}

/// The error of a context that could not be had.
pub fn invalid_skill_context(error: String) -> (r: ScopedSkillManagementError)
    ensures
        r@ == (ScopedSkillManagementErrorView::InvalidContext { reason: error@ }),
{
    ScopedSkillManagementError::InvalidContext { reason: error }
}

/// The context of a scope. `resolved` is what the mount resolver made of it.
pub open spec fn context_of(
    scope: ResourceScopeView,
    resolved: Result<MountViewView, Seq<char>>,
) -> Result<SkillManagementContextView, ScopedSkillManagementErrorView> {
    match resolved {
        Ok(mounts) => Ok(SkillManagementContextView { mounts, scope }),
        Err(reason) => Err(ScopedSkillManagementErrorView::InvalidContext { reason }),
    }
}

/// The call that an operation in a scope makes.
pub open spec fn call_of(
    scope: ResourceScopeView,
    resolved: Result<MountViewView, Seq<char>>,
    operation: SkillOperationView,
) -> Result<SkillManagementCallView, ScopedSkillManagementErrorView> {
    match context_of(scope, resolved) {
        Ok(context) => Ok(SkillManagementCallView { context, operation }),
        Err(error) => Err(error),
    }
}

/// The result of an operation in a scope: the mount resolver's refusal, or what
/// skill management answered.
pub open spec fn scoped_result<T>(
    resolved: Result<MountViewView, Seq<char>>,
    answer: Result<T, SkillManagementErrorView>,
) -> Result<T, ScopedSkillManagementErrorView> {
    match resolved {
        Err(reason) => Err(ScopedSkillManagementErrorView::InvalidContext { reason }),
        Ok(_) => match answer {
            Ok(value) => Ok(value),
            Err(error) => Err(ScopedSkillManagementErrorView::Skill(error)),
        },
    }
}

/// The mathematical value of an answer.
pub open spec fn answer_view<T>(answer: Result<T, SkillManagementError>) -> Result<
    T,
    SkillManagementErrorView,
> {
    match answer {
        Ok(value) => Ok(value),
        Err(error) => Err(error@),
    }
}

/// The mathematical value of a scoped answer.
pub open spec fn scoped_view<T>(answer: Result<T, ScopedSkillManagementError>) -> Result<
    T,
    ScopedSkillManagementErrorView,
> {
    match answer {
        Ok(value) => Ok(value),
        Err(error) => Err(error@),
    }
}

/// Skill management for an owner, scope by scope.
#[derive(Debug, PartialEq, Eq)]
pub struct ScopedSkillManagementPort {
    pub owner_user_id: UserId,
}

/// The mathematical value of a [`ScopedSkillManagementPort`].
#[verifier::ext_equal]
pub struct ScopedSkillManagementPortView {
    pub owner_user_id: Seq<char>,
}

impl View for ScopedSkillManagementPort {
    type V = ScopedSkillManagementPortView;

    open spec fn view(&self) -> ScopedSkillManagementPortView {
        ScopedSkillManagementPortView {
            owner_user_id: self.owner_user_id@,
        }
    }
}

impl DeepView for ScopedSkillManagementPort {
    type V = ScopedSkillManagementPortView;

    open spec fn deep_view(&self) -> ScopedSkillManagementPortView {
        self@
    }
}

impl Clone for ScopedSkillManagementPort {
    fn clone(&self) -> (r: Self)
        ensures
            r@ == self@,
    {
        ScopedSkillManagementPort {
            owner_user_id: self.owner_user_id.clone(),
        }
    }
}

impl ScopedSkillManagementPort {
    /// A port for an owner.
    pub fn new(owner_user_id: UserId) -> (r: Self)
        ensures
            r@.owner_user_id == owner_user_id@,
    {
        ScopedSkillManagementPort { owner_user_id }
    }

    /// The user whose scope the host is asked to make: the owner.
    pub fn owner_to_mint_for(&self) -> (r: UserId)
        ensures
            r@ == self@.owner_user_id,
    {
        self.owner_user_id.clone()
    }

    /// The scope of the owner. `minted` is the scope the host made for the user
    /// that [`Self::owner_to_mint_for`] gives, or why it could not.
    pub fn owner_scope(&self, minted: Result<ResourceScope, String>) -> (r: Result<
        ResourceScope,
        ScopedSkillManagementError,
    >)
        ensures
            outcome(r) == match outcome(minted) {
                Ok(scope) => Ok::<ResourceScopeView, ScopedSkillManagementErrorView>(scope),
                Err(reason) => Err(ScopedSkillManagementErrorView::InvalidContext { reason }),
            },
    {
        match minted {
            Ok(scope) => Ok(scope),
            Err(error) => Err(invalid_skill_context(error)),
        }
    }

    /// The context of a scope.
    pub fn context_for_scope(&self, scope: ResourceScope, resolved: Result<MountView, String>) -> (r:
        Result<SkillManagementContext, ScopedSkillManagementError>)
        ensures
            outcome(r) == context_of(scope@, outcome(resolved)),
    {
        match resolved {
            Ok(mounts) => Ok(SkillManagementContext { mounts, scope }),
            Err(error) => Err(invalid_skill_context(error)),
        }
    }

    fn call_for_scope(
        &self,
        scope: ResourceScope,
        resolved: Result<MountView, String>,
        operation: SkillOperation,
    ) -> (r: Result<SkillManagementCall, ScopedSkillManagementError>)
        ensures
            outcome(r) == call_of(scope@, outcome(resolved), operation@),
    {
        match self.context_for_scope(scope, resolved) {
            Ok(context) => Ok(SkillManagementCall { context, operation }),
            Err(error) => Err(error),
        }
    }

    /// The call that lists the skills of a scope.
    pub fn list_for_scope(
        &self,
        scope: ResourceScope,
        resolved: Result<MountView, String>,
    ) -> (r: Result<SkillManagementCall, ScopedSkillManagementError>)
        ensures
            outcome(r) == call_of(
                scope@,
                outcome(resolved),
                SkillOperationView::List,
            ),
    {
        self.call_for_scope(
            scope,
            resolved,
            SkillOperation::List,
        )
    }

    /// The call that searches the skills of a scope.
    pub fn search_for_scope(
        &self,
        scope: ResourceScope,
        resolved: Result<MountView, String>,
        query: &str,
        limit: usize,
    ) -> (r: Result<SkillManagementCall, ScopedSkillManagementError>)
        ensures
            outcome(r) == call_of(
                scope@,
                outcome(resolved),
                (SkillOperationView::Search { query: query@, limit }),
            ),
    {
        self.call_for_scope(
            scope,
            resolved,
            SkillOperation::Search { query: query.to_string(), limit },
        )
    }

    /// The call that reads a skill of a scope.
    pub fn read_content_for_scope(
        &self,
        scope: ResourceScope,
        resolved: Result<MountView, String>,
        name: &str,
    ) -> (r: Result<SkillManagementCall, ScopedSkillManagementError>)
        ensures
            outcome(r) == call_of(
                scope@,
                outcome(resolved),
                (SkillOperationView::ReadContent { name: name@ }),
            ),
    {
        self.call_for_scope(
            scope,
            resolved,
            SkillOperation::ReadContent { name: name.to_string() },
        )
    }

    /// The call that gives a skill of a scope new content.
    pub fn update_for_scope(
        &self,
        scope: ResourceScope,
        resolved: Result<MountView, String>,
        name: &str,
        content: &str,
    ) -> (r: Result<SkillManagementCall, ScopedSkillManagementError>)
        ensures
            outcome(r) == call_of(
                scope@,
                outcome(resolved),
                (SkillOperationView::Update { name: name@, content: content@ }),
            ),
    {
        self.call_for_scope(
            scope,
            resolved,
            SkillOperation::Update { name: name.to_string(), content: content.to_string() },
        )
    }

    /// The call that installs a skill in a scope: one of the user's own, with no
    /// other files and no origin.
    pub fn install_for_scope(
        &self,
        scope: ResourceScope,
        resolved: Result<MountView, String>,
        name: Option<&str>,
        content: &str,
    ) -> (r: Result<SkillManagementCall, ScopedSkillManagementError>)
        ensures
            outcome(r) == call_of(
                scope@,
                outcome(resolved),
                (SkillOperationView::Install {
                    requested_name: match name {
                        Some(name) => Some(name@),
                        None => None,
                    },
                    content: content@,
                    files: Seq::empty(),
                    source: SkillInstallSource::User,
                    source_url: None,
                }),
            ),
    {
        let files: Vec<String> = Vec::new();
        assert(files.deep_view() =~= Seq::empty());
        let requested_name = match name {
            Some(name) => Some(name.to_string()),
            None => None,
        };
        self.call_for_scope(
            scope,
            resolved,
            SkillOperation::Install {
                requested_name,
                content: content.to_string(),
                files,
                source: SkillInstallSource::User,
                source_url: None,
            },
        )
    }

    /// The call that removes a skill of a scope.
    pub fn remove_for_scope(
        &self,
        scope: ResourceScope,
        resolved: Result<MountView, String>,
        name: &str,
    ) -> (r: Result<SkillManagementCall, ScopedSkillManagementError>)
        ensures
            outcome(r) == call_of(
                scope@,
                outcome(resolved),
                (SkillOperationView::Remove { name: name@ }),
            ),
    {
        self.call_for_scope(
            scope,
            resolved,
            SkillOperation::Remove { name: name.to_string() },
        )
    }

    /// The result of a call, from the mount resolver's answer and that of skill
    /// management.
    pub fn result_for_scope<T>(
        &self,
        resolved: Result<MountView, String>,
        answer: Result<T, SkillManagementError>,
    ) -> (r: Result<T, ScopedSkillManagementError>)
        ensures
            scoped_view(r) == scoped_result(outcome(resolved), answer_view(answer)),
    {
        match resolved {
            Err(error) => Err(invalid_skill_context(error)),
            Ok(_) => match answer {
                Ok(value) => Ok(value),
                Err(error) => Err(ScopedSkillManagementError::from(error)),
            },
        }
    }
}

/// A call is made in the given scope with the mounts that were resolved for it, for the
/// very operation. Where the mounts could not be resolved there is no call, and the
/// reason is kept.
pub proof fn law_call_is_made_in_its_scope(
    scope: ResourceScopeView,
    resolved: Result<MountViewView, Seq<char>>,
    operation: SkillOperationView,
)
    ensures
        call_of(scope, resolved, operation) is Ok <==> resolved is Ok,
        call_of(scope, resolved, operation) matches Ok(call) ==> call.context.scope == scope
            && call.context.mounts == resolved->Ok_0 && call.operation == operation,
        resolved matches Err(reason) ==> call_of(scope, resolved, operation) == Err::<
            SkillManagementCallView,
            ScopedSkillManagementErrorView,
        >(ScopedSkillManagementErrorView::InvalidContext { reason }),
{
}

/// A result is what skill management answered, its failure kept as it is, unless the
/// mounts could not be resolved.
pub proof fn law_scoped_result_is_the_answer<T>(
    resolved: Result<MountViewView, Seq<char>>,
    answer: Result<T, SkillManagementErrorView>,
)
    ensures
        resolved matches Err(reason) ==> scoped_result(resolved, answer) == Err::<
            T,
            ScopedSkillManagementErrorView,
        >(ScopedSkillManagementErrorView::InvalidContext { reason }),
        resolved is Ok && answer is Ok ==> scoped_result(resolved, answer) == Ok::<
            T,
            ScopedSkillManagementErrorView,
        >(answer->Ok_0),
        resolved is Ok && answer is Err ==> scoped_result(resolved, answer) == Err::<
            T,
            ScopedSkillManagementErrorView,
        >(ScopedSkillManagementErrorView::Skill(answer->Err_0)),
{
}

} // verus!
