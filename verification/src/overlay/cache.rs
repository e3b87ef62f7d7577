//! Cached discoveries, and who is discovering right now.

use vstd::prelude::*;

use crate::capability::{CapabilityDescriptor, CapabilityDescriptorView};
use crate::mcp::discovery::HostedMcpDiscoveryError;
use crate::outcome::outcome;
use crate::overlay::fanout::{
    overlay_error_from_discovery, overlay_error_of, HostedMcpOverlayError,
    HostedMcpOverlayErrorView,
};
use crate::overlay::table::{KeyTable, OverlayCacheKey, OverlayCacheKeyView};
use crate::package::ExtensionPackage;

verus! {

/// Nanoseconds a discovery stays cached: one minute.
pub const OVERLAY_CACHE_TTL_NANOS: u64 = 60000000000;

/// Most discoveries cached at once.
pub const MAX_OVERLAY_CACHE_ENTRIES: usize = 4096;

/// A cached discovery.
#[derive(Debug, PartialEq, Eq)]
pub struct CacheEntry {
    /// Monotonic time of the discovery, in nanoseconds.
    pub fetched_at: u64,
    pub descriptors: Vec<CapabilityDescriptor>,
}

/// The mathematical value of a [`CacheEntry`].
#[verifier::ext_equal]
pub struct CacheEntryView {
    pub fetched_at: u64,
    pub descriptors: Seq<CapabilityDescriptorView>,
}

impl View for CacheEntry {
    type V = CacheEntryView;

    open spec fn view(&self) -> CacheEntryView {
        CacheEntryView {
            fetched_at: self.fetched_at,
            descriptors: self.descriptors.deep_view(),
        }
    }
}

impl DeepView for CacheEntry {
    type V = CacheEntryView;

    open spec fn deep_view(&self) -> CacheEntryView {
        self@
    }
}

impl Clone for CacheEntry {
    fn clone(&self) -> (r: Self)
        ensures
            r@ == self@,
    {
        let r = CacheEntry {
            fetched_at: self.fetched_at,
            descriptors: self.descriptors.clone(),
        };
        assert(r.descriptors.deep_view() =~= self.descriptors.deep_view());
        r
    }
}

/// Whether an entry is younger than its time to live.
pub open spec fn fresh(entry: CacheEntryView, now: u64) -> bool {
    now - entry.fetched_at < OVERLAY_CACHE_TTL_NANOS
}

/// What the cache answers for a key.
pub open spec fn cached_of(
    cache: Map<OverlayCacheKeyView, CacheEntryView>,
    key: OverlayCacheKeyView,
    now: u64,
) -> Option<Seq<CapabilityDescriptorView>> {
    if cache.contains_key(key) && fresh(cache[key], now) {
        Some(cache[key].descriptors)
    } else {
        None
    }
}

/// The cache after a key was looked up: an expired entry is gone.
pub open spec fn after_lookup(
    cache: Map<OverlayCacheKeyView, CacheEntryView>,
    key: OverlayCacheKeyView,
    now: u64,
) -> Map<OverlayCacheKeyView, CacheEntryView> {
    if cache.contains_key(key) && !fresh(cache[key], now) {
        cache.remove(key)
    } else {
        cache
    }
}

/// Whether a key holds an entry that no other is older than.
pub open spec fn oldest(
    cache: Map<OverlayCacheKeyView, CacheEntryView>,
    key: OverlayCacheKeyView,
) -> bool {
    &&& cache.contains_key(key)
    &&& forall|other: OverlayCacheKeyView| #[trigger]
        cache.contains_key(other) ==> cache[key].fetched_at <= cache[other].fetched_at
}

/// Whether `kept` is what remains of a cache when room is made for a key: one
/// oldest entry goes if the cache is full and does not hold the key.
pub open spec fn makes_room(
    cache: Map<OverlayCacheKeyView, CacheEntryView>,
    key: OverlayCacheKeyView,
    kept: Map<OverlayCacheKeyView, CacheEntryView>,
) -> bool {
    if cache.len() >= MAX_OVERLAY_CACHE_ENTRIES && !cache.contains_key(key) {
        exists|victim: OverlayCacheKeyView| #[trigger]
            oldest(cache, victim) && kept == cache.remove(victim)
    } else {
        kept == cache
    }
}

/// Whether `after` is a cache with a discovery put in.
pub open spec fn stores(
    cache: Map<OverlayCacheKeyView, CacheEntryView>,
    key: OverlayCacheKeyView,
    descriptors: Seq<CapabilityDescriptorView>,
    now: u64,
    after: Map<OverlayCacheKeyView, CacheEntryView>,
) -> bool {
    exists|kept: Map<OverlayCacheKeyView, CacheEntryView>| #[trigger]
        makes_room(cache, key, kept) && after == kept.insert(
            key,
            CacheEntryView { fetched_at: now, descriptors },
        )
}

/// The views of the values of a table.
pub open spec fn entry_views(table: Map<OverlayCacheKeyView, CacheEntry>) -> Map<
    OverlayCacheKeyView,
    CacheEntryView,
> {
    table.map_values(|entry: CacheEntry| entry@)
}

/// Discoveries by hire and package, each for a minute.
pub struct OverlayCache {
    table: KeyTable<CacheEntry>,
}

impl View for OverlayCache {
    type V = Map<OverlayCacheKeyView, CacheEntryView>;

    closed spec fn view(&self) -> Map<OverlayCacheKeyView, CacheEntryView> {
        entry_views(self.table@)
    }
}

impl OverlayCache {
    /// Whether the cache is within its bound.
    pub closed spec fn well_formed(self) -> bool {
        &&& self.table.well_formed()
        &&& self.table@.dom().finite()
        &&& self.table@.len() <= MAX_OVERLAY_CACHE_ENTRIES
    }

    /// A well-formed cache is within its bound.
    pub proof fn law_cache_is_bounded(&self)
        requires
            self.well_formed(),
        ensures
            self@.dom().finite(),
            self@.len() <= MAX_OVERLAY_CACHE_ENTRIES,
    {
        assert(self@.dom() =~= self.table@.dom());
    }

    /// The empty cache.
    pub fn new() -> (r: Self)
        ensures
            r.well_formed(),
            r@ == Map::<OverlayCacheKeyView, CacheEntryView>::empty(),
    {
        let table: KeyTable<CacheEntry> = KeyTable::new();
        let cache = OverlayCache { table };
        assert(cache.table@.dom() =~= Set::empty());
        assert(cache@ =~= Map::<OverlayCacheKeyView, CacheEntryView>::empty());
        cache
    }

    /// How many discoveries are cached.
    pub fn len(&self) -> (r: usize)
        requires
            self.well_formed(),
        ensures
            r == self@.len(),
    {
        assert(self@.dom() =~= self.table@.dom());
        self.table.len()
    }

    /// Looks up a key. An expired entry is dropped and not served.
    pub fn cached(&mut self, key: &OverlayCacheKey, now: u64) -> (r: Option<
        Vec<CapabilityDescriptor>,
    >)
        requires
            old(self).well_formed(),
        ensures
            final(self).well_formed(),
            r.deep_view() == cached_of(old(self)@, key@, now),
            final(self)@ == after_lookup(old(self)@, key@, now),
    {
        let expired = match self.table.get(key) {
            Some(entry) => {
                if now < entry.fetched_at || now - entry.fetched_at < OVERLAY_CACHE_TTL_NANOS {
                    let descriptors = entry.descriptors.clone();
                    assert(descriptors.deep_view() =~= entry.descriptors.deep_view());
                    return Some(descriptors);
                }
                true
            },
            None => false,
        };
        if expired {
            self.table.remove(key);
            assert(self@ =~= old(self)@.remove(key@));
        }
        None
    }

    fn oldest_key(&self) -> (r: OverlayCacheKey)
        requires
            self.well_formed(),
            self@.len() > 0,
        ensures
            oldest(self@, r@),
    {
        assert(self@.dom() =~= self.table@.dom());
        let size: usize = self.table.len();
        let mut best: usize = 0;
        let mut i: usize = 1;
        while i < size
            invariant
                self.well_formed(),
                size == self.table@.len(),
                best < i <= size,
                forall|k: int|
                    0 <= k < i ==> self.table@[self.table.key_in(best as int)].fetched_at
                        <= self.table@[#[trigger] self.table.key_in(k)].fetched_at,
            decreases size - i,
        {
            let candidate = self.table.get(self.table.key_at(i));
            let current = self.table.get(self.table.key_at(best));
            match (candidate, current) {
                (Some(left), Some(right)) => {
                    if left.fetched_at < right.fetched_at {
                        best = i;
                    }
                },
                _ => {},
            }
            i = i + 1;
        }
        let key = self.table.key_at(best).clone();
        proof {
            assert forall|other: OverlayCacheKeyView| #[trigger]
                self@.contains_key(other) implies self@[key@].fetched_at
                <= self@[other].fetched_at by {
                self.table.lemma_every_key_has_a_slot(other);
                let at = choose|at: int|
                    0 <= at < self.table@.len() && #[trigger] self.table.key_in(at) == other;
                assert(self.table@[self.table.key_in(best as int)].fetched_at
                    <= self.table@[self.table.key_in(at)].fetched_at);
            }
        }
        key
    }

    /// Stores a discovery. When the cache is full of other keys, one of its
    /// oldest entries makes room.
    pub fn insert(
        &mut self,
        key: OverlayCacheKey,
        descriptors: Vec<CapabilityDescriptor>,
        now: u64,
    )
        requires
            old(self).well_formed(),
        ensures
            final(self).well_formed(),
            stores(old(self)@, key@, descriptors.deep_view(), now, final(self)@),
    {
        assert(self@.dom() =~= self.table@.dom());
        let held = self.table.get(&key).is_some();
        if self.table.len() >= MAX_OVERLAY_CACHE_ENTRIES && !held {
            let victim = self.oldest_key();
            self.table.remove(&victim);
            proof {
                assert(self@ =~= old(self)@.remove(victim@));
                assert(oldest(old(self)@, victim@));
                assert(makes_room(old(self)@, key@, self@));
            }
        }
        let ghost kept = self@;
        assert(makes_room(old(self)@, key@, kept));
        let ghost entry = CacheEntryView { fetched_at: now, descriptors: descriptors.deep_view() };
        let ghost kept_table = self.table@;
        self.table.insert(key, CacheEntry { fetched_at: now, descriptors });
        proof {
            assert(self@ =~= kept.insert(key@, entry));
            assert(self.table@.dom() =~= kept_table.dom().insert(key@));
        }
    }

    /// Settles a discovery: a success is stored and served, a failure is mapped
    /// and never stored.
    pub fn settle(
        &mut self,
        key: OverlayCacheKey,
        discovery: Result<ExtensionPackage, HostedMcpDiscoveryError>,
        now: u64,
    ) -> (r: Result<Vec<CapabilityDescriptor>, HostedMcpOverlayError>)
        requires
            old(self).well_formed(),
        ensures
            final(self).well_formed(),
            match discovery {
                Ok(package) => outcome(r) == Ok::<
                    Seq<CapabilityDescriptorView>,
                    HostedMcpOverlayErrorView,
                >(package@.capabilities) && stores(
                    old(self)@,
                    key@,
                    package@.capabilities,
                    now,
                    final(self)@,
                ),
                Err(error) => outcome(r) == Err::<
                    Seq<CapabilityDescriptorView>,
                    HostedMcpOverlayErrorView,
                >(overlay_error_of(error@)) && final(self)@ == old(self)@,
            },
    {
        match discovery {
            Ok(package) => {
                let descriptors = package.capabilities.clone();
                assert(descriptors.deep_view() =~= package.capabilities.deep_view());
                self.insert(key, descriptors, now);
                Ok(package.capabilities)
            },
            Err(error) => Err(overlay_error_from_discovery(error)),
        }
    }
}

/// A stored discovery is served until its time is up, and not after.
pub proof fn law_stored_discovery_is_served_while_fresh(
    cache: Map<OverlayCacheKeyView, CacheEntryView>,
    key: OverlayCacheKeyView,
    descriptors: Seq<CapabilityDescriptorView>,
    stored_at: u64,
    after: Map<OverlayCacheKeyView, CacheEntryView>,
    now: u64,
)
    requires
        stores(cache, key, descriptors, stored_at, after),
    ensures
        now - stored_at < OVERLAY_CACHE_TTL_NANOS ==> cached_of(after, key, now) == Some(
            descriptors,
        ),
        now - stored_at >= OVERLAY_CACHE_TTL_NANOS ==> cached_of(after, key, now) is None,
{
}

/// Storing a discovery never changes what another key is served, except that
/// an oldest entry may be gone when the cache was full.
pub proof fn law_storing_leaves_other_keys_alone(
    cache: Map<OverlayCacheKeyView, CacheEntryView>,
    key: OverlayCacheKeyView,
    descriptors: Seq<CapabilityDescriptorView>,
    stored_at: u64,
    after: Map<OverlayCacheKeyView, CacheEntryView>,
    other: OverlayCacheKeyView,
    now: u64,
)
    requires
        stores(cache, key, descriptors, stored_at, after),
        other != key,
    ensures
        cached_of(after, other, now) == cached_of(cache, other, now) || (cached_of(
            after,
            other,
            now,
        ) is None && oldest(cache, other) && cache.len() >= MAX_OVERLAY_CACHE_ENTRIES),
{
    let kept = choose|kept: Map<OverlayCacheKeyView, CacheEntryView>| #[trigger]
        makes_room(cache, key, kept) && after == kept.insert(
            key,
            CacheEntryView { fetched_at: stored_at, descriptors },
        );
    if cache.len() >= MAX_OVERLAY_CACHE_ENTRIES && !cache.contains_key(key) {
        let victim = choose|victim: OverlayCacheKeyView| #[trigger]
            oldest(cache, victim) && kept == cache.remove(victim);
        if victim != other {
            assert(cached_of(after, other, now) == cached_of(cache, other, now));
        }
    }
}

/// The keys under discovery, each with how many callers hold it.
pub struct InflightTable {
    table: KeyTable<usize>,
}

impl View for InflightTable {
    type V = Map<OverlayCacheKeyView, usize>;

    closed spec fn view(&self) -> Map<OverlayCacheKeyView, usize> {
        self.table@
    }
}

/// How many callers hold a key.
pub open spec fn holders(
    inflight: Map<OverlayCacheKeyView, usize>,
    key: OverlayCacheKeyView,
) -> usize {
    if inflight.contains_key(key) {
        inflight[key]
    } else {
        0
    }
}

/// The table after a caller let go of a key: the key is gone with the last
/// holder.
pub open spec fn released(
    inflight: Map<OverlayCacheKeyView, usize>,
    key: OverlayCacheKeyView,
) -> Map<OverlayCacheKeyView, usize> {
    if holders(inflight, key) <= 1 {
        inflight.remove(key)
    } else {
        inflight.insert(key, (inflight[key] - 1) as usize)
    }
}

/// The table after `count` callers let go of a key.
pub open spec fn released_times(
    inflight: Map<OverlayCacheKeyView, usize>,
    key: OverlayCacheKeyView,
    count: nat,
) -> Map<OverlayCacheKeyView, usize>
    decreases count,
{
    if count == 0 {
        inflight
    } else {
        released_times(released(inflight, key), key, (count - 1) as nat)
    }
}

impl InflightTable {
    /// Whether no key is listed twice, and none without a holder.
    pub closed spec fn well_formed(self) -> bool {
        &&& self.table.well_formed()
        &&& forall|key: OverlayCacheKeyView| #[trigger]
            self.table@.contains_key(key) ==> self.table@[key] > 0
    }

    /// A key is in the table only while someone holds it: whatever callers took
    /// hold, had their turn or stopped waiting, none is left behind.
    pub proof fn law_every_key_has_a_holder(&self, key: OverlayCacheKeyView)
        requires
            self.well_formed(),
        ensures
            self@.contains_key(key) <==> holders(self@, key) > 0,
    {
    }

    /// The empty table.
    pub fn new() -> (r: Self)
        ensures
            r.well_formed(),
            r@ == Map::<OverlayCacheKeyView, usize>::empty(),
    {
        InflightTable { table: KeyTable::new() }
    }

    /// How many keys are under discovery.
    pub fn len(&self) -> (r: usize)
        requires
            self.well_formed(),
        ensures
            r == self@.len(),
    {
        self.table.len()
    }

    /// Whether a key is under discovery.
    pub fn contains(&self, key: &OverlayCacheKey) -> (r: bool)
        requires
            self.well_formed(),
        ensures
            r == self@.contains_key(key@),
    {
        self.table.get(key).is_some()
    }

    /// Takes hold of a key. `false`, and no change, if the count of holders
    /// would not fit.
    pub fn acquire_inflight(&mut self, key: &OverlayCacheKey) -> (r: bool)
        requires
            old(self).well_formed(),
        ensures
            final(self).well_formed(),
            r == (holders(old(self)@, key@) < usize::MAX),
            r ==> final(self)@ == old(self)@.insert(
                key@,
                (holders(old(self)@, key@) + 1) as usize,
            ),
            !r ==> final(self)@ == old(self)@,
    {
        let count: usize = match self.table.get(key) {
            Some(count) => *count,
            None => 0,
        };
        if count == usize::MAX {
            return false;
        }
        self.table.insert(key.clone(), count + 1);
        true
    }

    /// Lets go of a key after its turn. The last holder takes the key out of
    /// the table.
    pub fn release(&mut self, key: &OverlayCacheKey)
        requires
            old(self).well_formed(),
        ensures
            final(self).well_formed(),
            final(self)@ == released(old(self)@, key@),
    {
        let count: usize = match self.table.get(key) {
            Some(count) => *count,
            None => 0,
        };
        if count <= 1 {
            self.table.remove(key);
        } else {
            self.table.insert(key.clone(), count - 1);
        }
    }

    /// Stops waiting for a key without having had a turn. As after a turn, the
    /// last holder takes the key out of the table.
    pub fn abandon(&mut self, key: &OverlayCacheKey)
        requires
            old(self).well_formed(),
        ensures
            final(self).well_formed(),
            final(self)@ == released(old(self)@, key@),
    {
        self.release(key);
    }
}

/// Once every holder of a key has let go of it, the key is gone from the table.
/// After a turn or without one, letting go is the same step.
pub proof fn law_no_key_outlives_its_holders(
    inflight: Map<OverlayCacheKeyView, usize>,
    key: OverlayCacheKeyView,
)
    requires
        holders(inflight, key) > 0,
    ensures
        !released_times(inflight, key, holders(inflight, key) as nat).contains_key(key),
    decreases holders(inflight, key),
{
    let next = released(inflight, key);
    if holders(inflight, key) > 1 {
        assert(holders(next, key) == holders(inflight, key) - 1);
        law_no_key_outlives_its_holders(next, key);
    } else {
        assert(released_times(inflight, key, 1) == released_times(next, key, 0));
    }
}

/// Letting go of a key leaves every other key alone.
pub proof fn law_releasing_leaves_other_keys_alone(
    inflight: Map<OverlayCacheKeyView, usize>,
    key: OverlayCacheKeyView,
    other: OverlayCacheKeyView,
)
    requires
        other != key,
    ensures
        holders(released(inflight, key), other) == holders(inflight, other),
        released(inflight, key).contains_key(other) == inflight.contains_key(other),
{
}

/// A lookup finds what its own key holds, if that is less than a minute old. An older
/// entry is dropped; every other entry stays as it is.
pub proof fn law_lookup_finds_its_own_fresh_entry(
    cache: Map<OverlayCacheKeyView, CacheEntryView>,
    key: OverlayCacheKeyView,
    other: OverlayCacheKeyView,
    now: u64,
)
    ensures
        ({
            let young = cache.contains_key(key) && now - cache[key].fetched_at < 60_000_000_000;
            let after = after_lookup(cache, key, now);
            &&& young ==> cached_of(cache, key, now) == Some(cache[key].descriptors)
            &&& !young ==> cached_of(cache, key, now) is None
            &&& after.contains_key(key) <==> young
            &&& young ==> after[key] == cache[key]
            &&& other != key ==> (after.contains_key(other) <==> cache.contains_key(other))
            &&& other != key && cache.contains_key(other) ==> after[other] == cache[other]
        }),
{
}

/// A stored discovery stands under its own key, with its time. Whatever else the cache
/// holds it held before, unchanged. An entry goes only from a full cache that did not
/// hold the key; only one goes, and none is older.
pub proof fn law_storing_adds_one_entry(
    cache: Map<OverlayCacheKeyView, CacheEntryView>,
    key: OverlayCacheKeyView,
    descriptors: Seq<CapabilityDescriptorView>,
    stored_at: u64,
    after: Map<OverlayCacheKeyView, CacheEntryView>,
    other: OverlayCacheKeyView,
    another: OverlayCacheKeyView,
)
    requires
        stores(cache, key, descriptors, stored_at, after),
        other != key,
        another != key,
    ensures
        after.contains_key(key),
        after[key].fetched_at == stored_at,
        after[key].descriptors == descriptors,
        after.contains_key(other) ==> cache.contains_key(other) && after[other] == cache[other],
        cache.contains_key(other) && !after.contains_key(other) ==> {
            &&& cache.len() >= 4096
            &&& !cache.contains_key(key)
            &&& cache.contains_key(another) ==> cache[other].fetched_at
                <= cache[another].fetched_at
            &&& cache.contains_key(another) && another != other ==> after.contains_key(another)
        },
        cache.len() >= 4096 && !cache.contains_key(key) ==> exists|victim: OverlayCacheKeyView|
            #[trigger] cache.contains_key(victim) && !after.contains_key(victim),
{
    let kept = choose|kept: Map<OverlayCacheKeyView, CacheEntryView>| #[trigger]
        makes_room(cache, key, kept) && after == kept.insert(
            key,
            CacheEntryView { fetched_at: stored_at, descriptors },
        );
    if cache.len() >= MAX_OVERLAY_CACHE_ENTRIES && !cache.contains_key(key) {
        let victim = choose|victim: OverlayCacheKeyView| #[trigger]
            oldest(cache, victim) && kept == cache.remove(victim);
        assert(cache.contains_key(victim));
        assert(!after.contains_key(victim));
    }
}

/// Letting go of a key leaves one holder less; the key stays as long as there is one.
pub proof fn law_each_release_is_one_holder_less(
    inflight: Map<OverlayCacheKeyView, usize>,
    key: OverlayCacheKeyView,
)
    ensures
        inflight.contains_key(key) ==> holders(inflight, key) == inflight[key],
        !inflight.contains_key(key) ==> holders(inflight, key) == 0,
        holders(inflight, key) > 0 ==> holders(released(inflight, key), key) == holders(
            inflight,
            key,
        ) - 1,
        released(inflight, key).contains_key(key) <==> holders(inflight, key) > 1,
{
}

} // verus!
