//! Skills: what they are, who owns them, and how they are listed.

pub mod command;
pub mod listing;
pub mod management;
pub mod owners;

use vstd::prelude::*;

use crate::order::{
    key_before, keyed_view, law_sorted_by_is_in_key_order, law_sorting_keeps_items, sorted_by,
    sorted_items, Keyed,
};
use crate::text::{lemma_text_before_irreflexive, text_before};

verus! {

/// Where a skill is kept.
#[derive(Debug, Clone, Copy, PartialEq, Eq, Structural)]
pub enum ManagedSkillSource {
    /// With the host, for everyone.
    System,
    /// With its owner.
    User,
}

/// The name of a skill source.
pub open spec fn source_name(source: ManagedSkillSource) -> Seq<char> {
    match source {
        ManagedSkillSource::System => "system"@,
        ManagedSkillSource::User => "user"@,
    }
}

impl ManagedSkillSource {
    /// The name of a skill source.
    pub fn as_str(self) -> (r: &'static str)
        ensures
            r@ == source_name(self),
    {
        match self {
            ManagedSkillSource::System => "system",
            ManagedSkillSource::User => "user",
        }
    }
}

/// What a listing tells of a skill.
#[derive(Debug, PartialEq, Eq)]
pub struct SkillSummary {
    pub name: String,
    pub source: ManagedSkillSource,
    pub description: String,
    pub version: String,
    pub keywords: Vec<String>,
    pub tags: Vec<String>,
    pub requires_skills: Vec<String>,
}

/// The mathematical value of a [`SkillSummary`].
#[verifier::ext_equal]
pub struct SkillSummaryView {
    pub name: Seq<char>,
    pub source: ManagedSkillSource,
    pub description: Seq<char>,
    pub version: Seq<char>,
    pub keywords: Seq<Seq<char>>,
    pub tags: Seq<Seq<char>>,
    pub requires_skills: Seq<Seq<char>>,
}

impl View for SkillSummary {
    type V = SkillSummaryView;

    open spec fn view(&self) -> SkillSummaryView {
        SkillSummaryView {
            name: self.name@,
            source: self.source,
            description: self.description@,
            version: self.version@,
            keywords: self.keywords.deep_view(),
            tags: self.tags.deep_view(),
            requires_skills: self.requires_skills.deep_view(),
        }
    }
}

impl DeepView for SkillSummary {
    type V = SkillSummaryView;

    open spec fn deep_view(&self) -> SkillSummaryView {
        self@
    }
}

impl Clone for SkillSummary {
    fn clone(&self) -> (r: Self)
        ensures
            r@ == self@,
    {
        let r = SkillSummary {
            name: self.name.clone(),
            source: self.source,
            description: self.description.clone(),
            version: self.version.clone(),
            keywords: self.keywords.clone(),
            tags: self.tags.clone(),
            requires_skills: self.requires_skills.clone(),
        };
        assert(r.keywords.deep_view() =~= self.keywords.deep_view());
        assert(r.tags.deep_view() =~= self.tags.deep_view());
        assert(r.requires_skills.deep_view() =~= self.requires_skills.deep_view());
        r
    }
}

/// The key skills are listed by: name, then source.
pub open spec fn skill_key() -> spec_fn(SkillSummaryView) -> Seq<Seq<char>> {
    |skill: SkillSummaryView| seq![skill.name, source_name(skill.source)]
}

/// Skills in listing order.
pub open spec fn sorted_skills(skills: Seq<SkillSummaryView>) -> Seq<SkillSummaryView> {
    sorted_by(skills, skill_key())
}

/// Puts skills in listing order: by name, then by source, and otherwise as they
/// came.
pub fn sort_skills(skills: &mut Vec<SkillSummary>)
    ensures
        final(skills).deep_view() == sorted_skills(old(skills).deep_view()),
{
    let ghost views = skills.deep_view();
    let ghost entry_of = |skill: SkillSummaryView| (skill_key()(skill), skill);
    let mut entries: Vec<Keyed<SkillSummary>> = Vec::new();
    let mut i: usize = 0;
    assert(keyed_view(entries@) =~= views.take(0).map_values(entry_of));
    while i < skills.len()
        invariant
            views == skills.deep_view(),
            entry_of == (|skill: SkillSummaryView| (skill_key()(skill), skill)),
            i <= skills@.len(),
            keyed_view(entries@) == views.take(i as int).map_values(entry_of),
        decreases skills@.len() - i,
    {
        let ghost before = keyed_view(entries@);
        let skill = skills[i].clone();
        let mut key: Vec<String> = Vec::new();
        key.push(skill.name.clone());
        key.push(skill.source.as_str().to_string());
        assert(key.deep_view() =~= skill_key()(skill@));
        let ghost added = (skill_key()(skill@), skill@);
        entries.push(Keyed { key, item: skill });
        assert(keyed_view(entries@) =~= before.push(added));
        assert(before.push(added) =~= views.take(i + 1).map_values(entry_of));
        i = i + 1;
    }
    assert(views.take(views.len() as int) =~= views);
    *skills = sorted_items(entries);
}

/// Skills are listed by name; of two with one name the host's comes first. The listing
/// holds exactly the skills there were, as many.
pub proof fn law_skills_are_listed_by_name_then_source(
    skills: Seq<SkillSummaryView>,
    skill: SkillSummaryView,
)
    ensures
        source_name(ManagedSkillSource::System) == "system"@,
        source_name(ManagedSkillSource::User) == "user"@,
        sorted_skills(skills).len() == skills.len(),
        sorted_skills(skills).contains(skill) <==> skills.contains(skill),
        forall|i: int, j: int|
            0 <= i < j < skills.len() ==> {
                let earlier = #[trigger] sorted_skills(skills)[i];
                let later = #[trigger] sorted_skills(skills)[j];
                &&& !text_before(later.name, earlier.name)
                &&& later.name == earlier.name && later.source == ManagedSkillSource::System
                    ==> earlier.source == ManagedSkillSource::System
            },
{
    law_sorting_keeps_items(skills, skill_key(), skill);
    law_sorted_by_is_in_key_order(skills, skill_key());
    let sorted = sorted_skills(skills);
    assert forall|i: int, j: int| 0 <= i < j < skills.len() implies {
        let earlier = #[trigger] sorted[i];
        let later = #[trigger] sorted[j];
        &&& !text_before(later.name, earlier.name)
        &&& later.name == earlier.name && later.source == ManagedSkillSource::System
            ==> earlier.source == ManagedSkillSource::System
    } by {
        let earlier = sorted[i];
        let later = sorted[j];
        let a = skill_key()(later);
        let b = skill_key()(earlier);
        assert(!key_before(a, b));
        lemma_text_before_irreflexive(later.name);
        if later.name == earlier.name && later.source == ManagedSkillSource::System
            && earlier.source == ManagedSkillSource::User {
            reveal_strlit("system");
            reveal_strlit("user");
            assert(a.drop_first()[0] == "system"@);
            assert(b.drop_first()[0] == "user"@);
            assert("system"@[0] == 's' && "user"@[0] == 'u');
            assert(text_before("system"@, "user"@));
            assert(key_before(a.drop_first(), b.drop_first()));
        }
    }
}

} // verus!
