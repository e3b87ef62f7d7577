//! A table keyed by hire and package.

use vstd::prelude::*;

use crate::ids::{AgentId, ExtensionId, ProjectId, TenantId, UserId};
use crate::package::{ExtensionPackage, ExtensionPackageView};
use crate::scope::{same_optional_text, HireScope, HireScopeView};

verus! {

/// Identity of one (hire, package) pair.
///
/// The invocation of the hire is no part of it: a later run of the same agent
/// finds what an earlier one left.
#[derive(Debug, PartialEq, Eq)]
pub struct OverlayCacheKey {
    pub tenant_id: TenantId,
    pub user_id: UserId,
    pub agent_id: AgentId,
    pub project_id: Option<ProjectId>,
    pub extension_id: ExtensionId,
    pub manifest_digest: Option<String>,
}

/// The mathematical value of a [`OverlayCacheKey`].
#[verifier::ext_equal]
pub struct OverlayCacheKeyView {
    pub tenant_id: Seq<char>,
    pub user_id: Seq<char>,
    pub agent_id: Seq<char>,
    pub project_id: Option<Seq<char>>,
    pub extension_id: Seq<char>,
    pub manifest_digest: Option<Seq<char>>,
}

impl View for OverlayCacheKey {
    type V = OverlayCacheKeyView;

    open spec fn view(&self) -> OverlayCacheKeyView {
        OverlayCacheKeyView {
            tenant_id: self.tenant_id@,
            user_id: self.user_id@,
            agent_id: self.agent_id@,
            project_id: self.project_id.deep_view(),
            extension_id: self.extension_id@,
            manifest_digest: self.manifest_digest.deep_view(),
        }
    }
}

impl DeepView for OverlayCacheKey {
    type V = OverlayCacheKeyView;

    open spec fn deep_view(&self) -> OverlayCacheKeyView {
        self@
    }
}

impl Clone for OverlayCacheKey {
    fn clone(&self) -> (r: Self)
        ensures
            r@ == self@,
    {
        let r = OverlayCacheKey {
            tenant_id: self.tenant_id.clone(),
            user_id: self.user_id.clone(),
            agent_id: self.agent_id.clone(),
            project_id: self.project_id.clone(),
            extension_id: self.extension_id.clone(),
            manifest_digest: self.manifest_digest.clone(),
        };
        assert(r.project_id.deep_view() =~= self.project_id.deep_view());
        assert(r.manifest_digest.deep_view() =~= self.manifest_digest.deep_view());
        r
    }
}

/// The key of a hire and a package.
pub open spec fn key_of(hire: HireScopeView, package: ExtensionPackageView) -> OverlayCacheKeyView {
    OverlayCacheKeyView {
        tenant_id: hire.tenant_id,
        user_id: hire.user_id,
        agent_id: hire.agent_id,
        project_id: hire.project_id,
        extension_id: package.id,
        manifest_digest: package.manifest_digest,
    }
}

impl OverlayCacheKey {
    /// The key of a hire and a package.
    pub fn new(hire: &HireScope, package: &ExtensionPackage) -> (r: Self)
        ensures
            r@ == key_of(hire@, package@),
    {
        let project_id = match hire.project_id() {
            Some(project) => Some(project.clone()),
            None => None,
        };
        let r = OverlayCacheKey {
            tenant_id: hire.tenant_id().clone(),
            user_id: hire.user_id().clone(),
            agent_id: hire.agent_id().clone(),
            project_id,
            extension_id: package.id.clone(),
            manifest_digest: package.manifest_digest.clone(),
        };
        assert(r@.project_id =~= hire@.project_id);
        assert(r@.manifest_digest =~= package@.manifest_digest);
        r
    }

    /// Whether two keys are the same.
    pub fn same_as(&self, other: &Self) -> (r: bool)
        ensures
            r == (self@ == other@),
    {
        self.tenant_id == other.tenant_id && self.user_id == other.user_id && self.agent_id
            == other.agent_id && same_optional_text(&self.project_id, &other.project_id)
            && self.extension_id == other.extension_id && same_optional_text(
            &self.manifest_digest,
            &other.manifest_digest,
        )
    }
}

/// Two hires of different agents never share a key.
pub proof fn law_agents_are_isolated(
    left: HireScopeView,
    right: HireScopeView,
    package: ExtensionPackageView,
    other: ExtensionPackageView,
)
    requires
        left.agent_id != right.agent_id,
    ensures
        key_of(left, package) != key_of(right, other),
{
}

/// Two invocations of one hire share their key.
pub proof fn law_invocations_share_a_key(
    hire: HireScopeView,
    invocation_id: u128,
    package: ExtensionPackageView,
)
    ensures
        key_of(HireScopeView { invocation_id, ..hire }, package) == key_of(hire, package),
{
}

/// A key with its value.
pub struct Slot<V> {
    pub key: OverlayCacheKey,
    pub value: V,
}

/// The keys and values of some slots.
pub open spec fn slot_views<V>(slots: Seq<Slot<V>>) -> Seq<(OverlayCacheKeyView, V)> {
    slots.map_values(|slot: Slot<V>| (slot.key@, slot.value))
}

/// No key occurs twice.
pub open spec fn distinct<V>(slots: Seq<(OverlayCacheKeyView, V)>) -> bool {
    forall|i: int, j: int|
        0 <= i < j < slots.len() ==> (#[trigger] slots[i]).0 != (#[trigger] slots[j]).0
}

/// Whether a key occurs.
pub open spec fn occurs<V>(slots: Seq<(OverlayCacheKeyView, V)>, key: OverlayCacheKeyView) -> bool {
    exists|i: int| 0 <= i < slots.len() && (#[trigger] slots[i]).0 == key
}

/// The map that distinct slots hold.
pub open spec fn map_of<V>(slots: Seq<(OverlayCacheKeyView, V)>) -> Map<OverlayCacheKeyView, V> {
    Map::new(
        |key: OverlayCacheKeyView| occurs(slots, key),
        |key: OverlayCacheKeyView|
            slots[choose|i: int| 0 <= i < slots.len() && (#[trigger] slots[i]).0 == key].1,
    )
}

proof fn lemma_slot_is_found<V>(slots: Seq<(OverlayCacheKeyView, V)>, at: int)
    requires
        distinct(slots),
        0 <= at < slots.len(),
    ensures
        map_of(slots).contains_key(slots[at].0),
        map_of(slots)[slots[at].0] == slots[at].1,
{
    let key = slots[at].0;
    assert(occurs(slots, key));
    let found = choose|i: int| 0 <= i < slots.len() && (#[trigger] slots[i]).0 == key;
    assert(slots[found].0 == key);
    if found < at {
        assert(slots[found].0 != slots[at].0);
    } else if at < found {
        assert(slots[at].0 != slots[found].0);
    }
}

proof fn lemma_slot_removed<V>(slots: Seq<(OverlayCacheKeyView, V)>, at: int)
    requires
        distinct(slots),
        0 <= at < slots.len(),
    ensures
        distinct(slots.remove(at)),
        map_of(slots.remove(at)) == map_of(slots).remove(slots[at].0),
{
    let rest = slots.remove(at);
    assert forall|i: int, j: int| 0 <= i < j < rest.len() implies (#[trigger] rest[i]).0 != (
    #[trigger] rest[j]).0 by {
        let a = if i < at { i } else { i + 1 };
        let b = if j < at { j } else { j + 1 };
        assert(rest[i] == slots[a] && rest[j] == slots[b]);
    }
    assert forall|key: OverlayCacheKeyView|
        map_of(rest).contains_key(key) <==> map_of(slots).remove(slots[at].0).contains_key(
            key,
        ) by {
        if occurs(rest, key) {
            let i = choose|i: int| 0 <= i < rest.len() && (#[trigger] rest[i]).0 == key;
            let a = if i < at { i } else { i + 1 };
            assert(slots[a].0 == key);
            if a < at {
                assert(slots[a].0 != slots[at].0);
            } else {
                assert(slots[at].0 != slots[a].0);
            }
        }
        if occurs(slots, key) && key != slots[at].0 {
            let i = choose|i: int| 0 <= i < slots.len() && (#[trigger] slots[i]).0 == key;
            assert(rest[if i < at { i } else { i - 1 }].0 == key);
        }
    }
    assert forall|key: OverlayCacheKeyView| map_of(rest).contains_key(key) implies map_of(
        rest,
    )[key] == map_of(slots).remove(slots[at].0)[key] by {
        let i = choose|i: int| 0 <= i < rest.len() && (#[trigger] rest[i]).0 == key;
        lemma_slot_is_found(rest, i);
        lemma_slot_is_found(slots, if i < at { i } else { i + 1 });
    }
    assert(map_of(rest) =~= map_of(slots).remove(slots[at].0));
}

proof fn lemma_slot_pushed<V>(
    slots: Seq<(OverlayCacheKeyView, V)>,
    key: OverlayCacheKeyView,
    value: V,
)
    requires
        distinct(slots),
        !occurs(slots, key),
    ensures
        distinct(slots.push((key, value))),
        map_of(slots.push((key, value))) == map_of(slots).insert(key, value),
{
    let longer = slots.push((key, value));
    assert forall|i: int, j: int| 0 <= i < j < longer.len() implies (#[trigger] longer[i]).0 != (
    #[trigger] longer[j]).0 by {
        assert(longer[i] == slots[i]);
        if j < slots.len() {
            assert(longer[j] == slots[j]);
        }
    }
    assert forall|k: OverlayCacheKeyView|
        map_of(longer).contains_key(k) <==> map_of(slots).insert(key, value).contains_key(k) by {
        if occurs(slots, k) {
            let i = choose|i: int| 0 <= i < slots.len() && (#[trigger] slots[i]).0 == k;
            assert(longer[i].0 == k);
        }
        assert(longer[slots.len() as int].0 == key);
        if occurs(longer, k) {
            let i = choose|i: int| 0 <= i < longer.len() && (#[trigger] longer[i]).0 == k;
            if i < slots.len() {
                assert(slots[i].0 == k);
            }
        }
    }
    assert forall|k: OverlayCacheKeyView| map_of(longer).contains_key(k) implies map_of(
        longer,
    )[k] == map_of(slots).insert(key, value)[k] by {
        let i = choose|i: int| 0 <= i < longer.len() && (#[trigger] longer[i]).0 == k;
        lemma_slot_is_found(longer, i);
        if i < slots.len() {
            assert(longer[i] == slots[i]);
            lemma_slot_is_found(slots, i);
        }
    }
    assert(map_of(longer) =~= map_of(slots).insert(key, value));
}

proof fn lemma_map_len<V>(slots: Seq<(OverlayCacheKeyView, V)>)
    requires
        distinct(slots),
    ensures
        map_of(slots).dom().finite(),
        map_of(slots).len() == slots.len(),
    decreases slots.len(),
{
    if slots.len() == 0 {
        assert(map_of(slots) =~= Map::empty());
    } else {
        let last = slots.len() - 1;
        lemma_slot_removed(slots, last);
        lemma_slot_is_found(slots, last);
        lemma_map_len(slots.remove(last));
        let smaller = map_of(slots).remove(slots[last].0);
        assert(map_of(slots).dom() =~= smaller.dom().insert(slots[last].0));
    }
}

/// A table from keys to values.
pub struct KeyTable<V> {
    slots: Vec<Slot<V>>,
}

impl<V> View for KeyTable<V> {
    type V = Map<OverlayCacheKeyView, V>;

    closed spec fn view(&self) -> Map<OverlayCacheKeyView, V> {
        map_of(slot_views(self.slots@))
    }
}

impl<V> KeyTable<V> {
    /// Whether no key is held twice.
    pub closed spec fn well_formed(self) -> bool {
        distinct(slot_views(self.slots@))
    }

    /// The empty table.
    pub fn new() -> (r: Self)
        ensures
            r.well_formed(),
            r@ == Map::<OverlayCacheKeyView, V>::empty(),
    {
        let slots: Vec<Slot<V>> = Vec::new();
        let table = KeyTable { slots };
        assert(table@ =~= Map::<OverlayCacheKeyView, V>::empty());
        table
    }

    /// How many keys the table holds.
    pub fn len(&self) -> (r: usize)
        requires
            self.well_formed(),
        ensures
            r == self@.len(),
            self@.dom().finite(),
    {
        proof {
            lemma_map_len(slot_views(self.slots@));
        }
        self.slots.len()
    }

    fn find(&self, key: &OverlayCacheKey) -> (r: Option<usize>)
        ensures
            match r {
                Some(at) => at < self.slots@.len() && self.slots@[at as int].key@ == key@,
                None => !occurs(slot_views(self.slots@), key@),
            },
    {
        let ghost views = slot_views(self.slots@);
        let mut i: usize = 0;
        while i < self.slots.len()
            invariant
                views == slot_views(self.slots@),
                i <= self.slots@.len(),
                forall|k: int| 0 <= k < i ==> (#[trigger] views[k]).0 != key@,
            decreases self.slots@.len() - i,
        {
            assert(views[i as int].0 == self.slots@[i as int].key@);
            if self.slots[i].key.same_as(key) {
                return Some(i);
            }
            i = i + 1;
        }
        None
    }

    /// The value of a key.
    pub fn get(&self, key: &OverlayCacheKey) -> (r: Option<&V>)
        requires
            self.well_formed(),
        ensures
            match r {
                Some(value) => self@.contains_key(key@) && *value == self@[key@],
                None => !self@.contains_key(key@),
            },
    {
        match self.find(key) {
            Some(at) => {
                proof {
                    lemma_slot_is_found(slot_views(self.slots@), at as int);
                    assert(slot_views(self.slots@)[at as int].0 == key@);
                }
                Some(&self.slots[at].value)
            },
            None => None,
        }
    }

    /// Removes a key.
    pub fn remove(&mut self, key: &OverlayCacheKey)
        requires
            old(self).well_formed(),
        ensures
            final(self).well_formed(),
            final(self)@ == old(self)@.remove(key@),
    {
        match self.find(key) {
            Some(at) => {
                proof {
                    lemma_slot_removed(slot_views(self.slots@), at as int);
                    assert(slot_views(self.slots@)[at as int].0 == key@);
                }
                let ghost before = slot_views(self.slots@);
                self.slots.remove(at);
                assert(slot_views(self.slots@) =~= before.remove(at as int));
            },
            None => {
                assert(self@.remove(key@) =~= self@);
            },
        }
    }

    /// Sets the value of a key.
    pub fn insert(&mut self, key: OverlayCacheKey, value: V)
        requires
            old(self).well_formed(),
        ensures
            final(self).well_formed(),
            final(self)@ == old(self)@.insert(key@, value),
    {
        self.remove(&key);
        proof {
            if occurs(slot_views(self.slots@), key@) {
                assert(self@.contains_key(key@));
            }
            lemma_slot_pushed(slot_views(self.slots@), key@, value);
        }
        let ghost before = slot_views(self.slots@);
        let ghost added = (key@, value);
        self.slots.push(Slot { key, value });
        assert(slot_views(self.slots@) =~= before.push(added));
        assert(self@ =~= old(self)@.insert(key@, value));
    }

    /// The key in some slot.
    pub fn key_at(&self, at: usize) -> (r: &OverlayCacheKey)
        requires
            self.well_formed(),
            at < self@.len(),
        ensures
            self@.contains_key(r@),
            r@ == self.key_in(at as int),
    {
        proof {
            lemma_map_len(slot_views(self.slots@));
            lemma_slot_is_found(slot_views(self.slots@), at as int);
        }
        &self.slots[at].key
    }

    /// The key in some slot.
    pub closed spec fn key_in(self, at: int) -> OverlayCacheKeyView {
        self.slots@[at].key@
    }

    /// Every key of the table is in some slot.
    pub proof fn lemma_every_key_has_a_slot(&self, key: OverlayCacheKeyView)
        requires
            self.well_formed(),
            self@.contains_key(key),
        ensures
            exists|at: int| 0 <= at < self@.len() && #[trigger] self.key_in(at) == key,
    {
        let views = slot_views(self.slots@);
        lemma_map_len(views);
        let at = choose|i: int| 0 <= i < views.len() && (#[trigger] views[i]).0 == key;
        assert(self.key_in(at) == key);
    }
}

/// A key belongs to one owner and one package: two hires and packages share a key
/// exactly if they agree on tenant, user, agent and project, and on the id and the
/// manifest digest of the package.
pub proof fn law_owners_and_packages_are_isolated(
    left: HireScopeView,
    right: HireScopeView,
    package: ExtensionPackageView,
    other: ExtensionPackageView,
)
    ensures
        key_of(left, package) == key_of(right, other) <==> {
            &&& left.tenant_id == right.tenant_id
            &&& left.user_id == right.user_id
            &&& left.agent_id == right.agent_id
            &&& left.project_id == right.project_id
            &&& package.id == other.id
            &&& package.manifest_digest == other.manifest_digest
        },
{
}

} // verus!
