//! One overlay call: the cache first, then one discovery at a time for a key.

use vstd::prelude::*;

use crate::capability::{CapabilityDescriptor, CapabilityDescriptorView};
use crate::mcp::discovery::{HostedMcpDiscoveryError, HostedMcpDiscoveryErrorView};
use crate::outcome::outcome;
use crate::overlay::cache::{
    after_lookup, cached_of, law_stored_discovery_is_served_while_fresh,
    law_storing_leaves_other_keys_alone, stores, CacheEntryView, OverlayCache,
    OVERLAY_CACHE_TTL_NANOS,
};
use crate::overlay::fanout::{overlay_error_of, HostedMcpOverlayError, HostedMcpOverlayErrorView};
use crate::overlay::table::{
    key_of, law_owners_and_packages_are_isolated, OverlayCacheKey, OverlayCacheKeyView,
};
use crate::package::{ExtensionPackage, ExtensionPackageView};
use crate::scope::{owner_scope_of, HireScope, HireScopeView, ResourceScope, ResourceScopeView};

verus! {

/// What has happened in an overlay call.
#[derive(Debug)]
pub enum OverlayEvent {
    /// The capabilities of a package were asked for.
    Asked,
    /// The caller's turn at the key has come.
    Turn,
    /// The discovery it asked for is over.
    Discovered { discovery: Result<ExtensionPackage, HostedMcpDiscoveryError> },
}

/// The mathematical value of an [`OverlayEvent`].
#[verifier::ext_equal]
pub enum OverlayEventView {
    Asked,
    Turn,
    Discovered { discovery: Result<ExtensionPackageView, HostedMcpDiscoveryErrorView> },
}

impl View for OverlayEvent {
    type V = OverlayEventView;

    open spec fn view(&self) -> OverlayEventView {
        match self {
            OverlayEvent::Asked => OverlayEventView::Asked,
            OverlayEvent::Turn => OverlayEventView::Turn,
            OverlayEvent::Discovered { discovery } => OverlayEventView::Discovered {
                discovery: outcome(*discovery),
            },
        }
    }
}

/// What an overlay call does next.
#[derive(Debug)]
pub enum OverlayAction {
    /// Wait for the caller's turn at the key.
    AwaitTurn,
    /// Discover the package, under the given scope.
    Discover { scope: ResourceScope },
    /// Answer with these capabilities.
    Serve { descriptors: Vec<CapabilityDescriptor> },
    /// Answer with this failure.
    Fail { error: HostedMcpOverlayError },
}

/// The mathematical value of an [`OverlayAction`].
#[verifier::ext_equal]
pub enum OverlayActionView {
    AwaitTurn,
    Discover { scope: ResourceScopeView },
    Serve { descriptors: Seq<CapabilityDescriptorView> },
    Fail { error: HostedMcpOverlayErrorView },
}

impl View for OverlayAction {
    type V = OverlayActionView;

    open spec fn view(&self) -> OverlayActionView {
        match self {
            OverlayAction::AwaitTurn => OverlayActionView::AwaitTurn,
            OverlayAction::Discover { scope } => OverlayActionView::Discover { scope: scope@ },
            OverlayAction::Serve { descriptors } => OverlayActionView::Serve {
                descriptors: descriptors.deep_view(),
            },
            OverlayAction::Fail { error } => OverlayActionView::Fail { error: error@ },
        }
    }
}

/// What an overlay call does next. The cache is looked at when the call comes in,
/// and again when its turn comes: whoever had the turn before may have filled it.
pub open spec fn overlay_action_of(
    cache: Map<OverlayCacheKeyView, CacheEntryView>,
    hire: HireScopeView,
    package: ExtensionPackageView,
    event: OverlayEventView,
    now: u64,
) -> OverlayActionView {
    match event {
        OverlayEventView::Asked => match cached_of(cache, key_of(hire, package), now) {
            Some(descriptors) => OverlayActionView::Serve { descriptors },
            None => OverlayActionView::AwaitTurn,
        },
        OverlayEventView::Turn => match cached_of(cache, key_of(hire, package), now) {
            Some(descriptors) => OverlayActionView::Serve { descriptors },
            None => OverlayActionView::Discover { scope: owner_scope_of(hire) },
        },
        OverlayEventView::Discovered { discovery } => match discovery {
            Ok(discovered) => OverlayActionView::Serve { descriptors: discovered.capabilities },
            Err(error) => OverlayActionView::Fail { error: overlay_error_of(error) },
        },
    }
}

/// Whether `after` is the cache after an event: a look at an expired entry drops
/// it, a discovery that succeeded is stored, one that failed is not.
pub open spec fn overlay_cache_after(
    cache: Map<OverlayCacheKeyView, CacheEntryView>,
    hire: HireScopeView,
    package: ExtensionPackageView,
    event: OverlayEventView,
    now: u64,
    after: Map<OverlayCacheKeyView, CacheEntryView>,
) -> bool {
    let key = key_of(hire, package);
    match event {
        OverlayEventView::Discovered { discovery } => match discovery {
            Ok(discovered) => stores(cache, key, discovered.capabilities, now, after),
            Err(_) => after == cache,
        },
        _ => after == after_lookup(cache, key, now),
    }
}

impl OverlayCache {
    /// What an overlay call does next, at the monotonic time `now` in
    /// nanoseconds.
    pub fn overlay_capabilities(
        &mut self,
        hire: &HireScope,
        package: &ExtensionPackage,
        event: OverlayEvent,
        now: u64,
    ) -> (r: OverlayAction)
        requires
            old(self).well_formed(),
        ensures
            final(self).well_formed(),
            r@ == overlay_action_of(old(self)@, hire@, package@, event@, now),
            overlay_cache_after(old(self)@, hire@, package@, event@, now, final(self)@),
    {
        let key = OverlayCacheKey::new(hire, package);
        match event {
            OverlayEvent::Asked => match self.cached(&key, now) {
                Some(descriptors) => OverlayAction::Serve { descriptors },
                None => OverlayAction::AwaitTurn,
            },
            OverlayEvent::Turn => match self.cached(&key, now) {
                Some(descriptors) => OverlayAction::Serve { descriptors },
                None => OverlayAction::Discover { scope: hire.to_owner_scope() },
            },
            OverlayEvent::Discovered { discovery } => match self.settle(key, discovery, now) {
                Ok(descriptors) => OverlayAction::Serve { descriptors },
                Err(error) => OverlayAction::Fail { error },
            },
        }
    }
}

/// A caller that waited while another one discovered the package is served that
/// discovery, and does not discover again, as long as the discovery is fresh.
pub proof fn law_waiting_callers_share_one_discovery(
    cache: Map<OverlayCacheKeyView, CacheEntryView>,
    hire: HireScopeView,
    package: ExtensionPackageView,
    discovered: ExtensionPackageView,
    discovered_at: u64,
    after: Map<OverlayCacheKeyView, CacheEntryView>,
    waiting: HireScopeView,
    now: u64,
)
    requires
        overlay_cache_after(
            cache,
            hire,
            package,
            (OverlayEventView::Discovered { discovery: Ok(discovered) }),
            discovered_at,
            after,
        ),
        key_of(waiting, package) == key_of(hire, package),
        now - discovered_at < OVERLAY_CACHE_TTL_NANOS,
    ensures
        overlay_action_of(after, waiting, package, OverlayEventView::Turn, now) == (
        OverlayActionView::Serve { descriptors: discovered.capabilities }),
{
    law_stored_discovery_is_served_while_fresh(
        cache,
        key_of(hire, package),
        discovered.capabilities,
        discovered_at,
        after,
        now,
    );
}

/// A discovery that failed is not remembered: the next caller discovers again,
/// unless an earlier discovery is still fresh.
pub proof fn law_failed_discovery_is_tried_again(
    cache: Map<OverlayCacheKeyView, CacheEntryView>,
    hire: HireScopeView,
    package: ExtensionPackageView,
    error: HostedMcpDiscoveryErrorView,
    failed_at: u64,
    after: Map<OverlayCacheKeyView, CacheEntryView>,
    now: u64,
)
    requires
        overlay_cache_after(
            cache,
            hire,
            package,
            (OverlayEventView::Discovered { discovery: Err(error) }),
            failed_at,
            after,
        ),
        cached_of(cache, key_of(hire, package), now) is None,
    ensures
        overlay_action_of(after, hire, package, OverlayEventView::Turn, now) == (
        OverlayActionView::Discover { scope: owner_scope_of(hire) }),
{
}

/// Discovery always runs under the hire's own scope, with its agent named.
pub proof fn law_discovery_runs_as_the_hire(
    cache: Map<OverlayCacheKeyView, CacheEntryView>,
    hire: HireScopeView,
    package: ExtensionPackageView,
    event: OverlayEventView,
    now: u64,
    scope: ResourceScopeView,
)
    requires
        overlay_action_of(cache, hire, package, event, now) == (OverlayActionView::Discover {
            scope,
        }),
    ensures
        scope.tenant_id == hire.tenant_id,
        scope.user_id == hire.user_id,
        scope.agent_id == Some(hire.agent_id),
        scope.project_id == hire.project_id,
        scope.mission_id is None,
        scope.thread_id is None,
{
}

/// A call is served what its own key holds while that is less than a minute old;
/// else it waits for its turn, and then discovers. What a discovery gave is served as
/// it is, and its failure is passed on in kind and with its reason.
pub proof fn law_call_serves_its_key_or_discovers(
    cache: Map<OverlayCacheKeyView, CacheEntryView>,
    hire: HireScopeView,
    package: ExtensionPackageView,
    discovered: ExtensionPackageView,
    reason: Seq<char>,
    now: u64,
)
    ensures
        ({
            let key = key_of(hire, package);
            let young = cache.contains_key(key) && now - cache[key].fetched_at < 60_000_000_000;
            let asked = overlay_action_of(cache, hire, package, OverlayEventView::Asked, now);
            let turn = overlay_action_of(cache, hire, package, OverlayEventView::Turn, now);
            &&& young ==> asked == (OverlayActionView::Serve { descriptors: cache[key].descriptors })
            &&& young ==> turn == (OverlayActionView::Serve { descriptors: cache[key].descriptors })
            &&& !young ==> asked is AwaitTurn
            &&& !young ==> turn is Discover
        }),
        overlay_action_of(
            cache,
            hire,
            package,
            (OverlayEventView::Discovered { discovery: Ok(discovered) }),
            now,
        ) == (OverlayActionView::Serve { descriptors: discovered.capabilities }),
        overlay_action_of(
            cache,
            hire,
            package,
            (OverlayEventView::Discovered {
                discovery: Err(HostedMcpDiscoveryErrorView::Transient(reason)),
            }),
            now,
        ) == (OverlayActionView::Fail { error: HostedMcpOverlayErrorView::Transient(reason) }),
        overlay_action_of(
            cache,
            hire,
            package,
            (OverlayEventView::Discovered {
                discovery: Err(HostedMcpDiscoveryErrorView::Permanent(reason)),
            }),
            now,
        ) == (OverlayActionView::Fail { error: HostedMcpOverlayErrorView::Permanent(reason) }),
{
}

/// What was discovered for one owner is never served to another: whatever becomes of
/// the cache in a call, a hire of another tenant, user, agent or project, or a call for
/// another package, is served what it was served before, or has to discover anew.
pub proof fn law_discoveries_are_never_served_to_another_owner(
    cache: Map<OverlayCacheKeyView, CacheEntryView>,
    hire: HireScopeView,
    package: ExtensionPackageView,
    event: OverlayEventView,
    then: u64,
    after: Map<OverlayCacheKeyView, CacheEntryView>,
    other: HireScopeView,
    other_package: ExtensionPackageView,
    now: u64,
)
    requires
        overlay_cache_after(cache, hire, package, event, then, after),
        hire.tenant_id != other.tenant_id || hire.user_id != other.user_id || hire.agent_id
            != other.agent_id || hire.project_id != other.project_id || package.id
            != other_package.id || package.manifest_digest != other_package.manifest_digest,
    ensures
        ({
            let before_turn = overlay_action_of(
                cache,
                other,
                other_package,
                OverlayEventView::Turn,
                now,
            );
            let after_turn = overlay_action_of(
                after,
                other,
                other_package,
                OverlayEventView::Turn,
                now,
            );
            after_turn == before_turn || (after_turn is Discover && cache.len() >= 4096)
        }),
        ({
            let before_ask = overlay_action_of(
                cache,
                other,
                other_package,
                OverlayEventView::Asked,
                now,
            );
            let after_ask = overlay_action_of(
                after,
                other,
                other_package,
                OverlayEventView::Asked,
                now,
            );
            after_ask == before_ask || (after_ask is AwaitTurn && cache.len() >= 4096)
        }),
{
    let key = key_of(hire, package);
    let other_key = key_of(other, other_package);
    law_owners_and_packages_are_isolated(hire, other, package, other_package);
    match event {
        OverlayEventView::Discovered { discovery: Ok(discovered) } => {
            law_storing_leaves_other_keys_alone(
                cache,
                key,
                discovered.capabilities,
                then,
                after,
                other_key,
                now,
            );
        },
        _ => {},
    }
}

/// A discovery that succeeded is stored for its own owner and package, and is what
/// every call of theirs is served for a minute, whatever its invocation. One that failed
/// changes nothing.
pub proof fn law_discoveries_are_kept_for_their_owner(
    cache: Map<OverlayCacheKeyView, CacheEntryView>,
    hire: HireScopeView,
    package: ExtensionPackageView,
    discovery: Result<ExtensionPackageView, HostedMcpDiscoveryErrorView>,
    then: u64,
    after: Map<OverlayCacheKeyView, CacheEntryView>,
    invocation_id: u128,
    now: u64,
)
    requires
        overlay_cache_after(
            cache,
            hire,
            package,
            (OverlayEventView::Discovered { discovery }),
            then,
            after,
        ),
    ensures
        ({
            let later = HireScopeView { invocation_id, ..hire };
            let action = overlay_action_of(after, later, package, OverlayEventView::Asked, now);
            &&& discovery is Ok && now - then < 60_000_000_000 ==> action == (
            OverlayActionView::Serve { descriptors: discovery->Ok_0.capabilities })
            &&& discovery is Ok && now - then >= 60_000_000_000 ==> action is AwaitTurn
            &&& discovery is Err ==> after == cache
        }),
{
    if let Ok(discovered) = discovery {
        law_stored_discovery_is_served_while_fresh(
            cache,
            key_of(hire, package),
            discovered.capabilities,
            then,
            after,
            now,
        );
    }
}

/// A look at the cache drops the call's own entry if it is a minute old or older, and
/// leaves every other entry as it is.
pub proof fn law_looking_drops_only_the_own_old_entry(
    cache: Map<OverlayCacheKeyView, CacheEntryView>,
    hire: HireScopeView,
    package: ExtensionPackageView,
    event: OverlayEventView,
    now: u64,
    after: Map<OverlayCacheKeyView, CacheEntryView>,
    other: OverlayCacheKeyView,
)
    requires
        event is Asked || event is Turn,
        overlay_cache_after(cache, hire, package, event, now, after),
    ensures
        ({
            let key = key_of(hire, package);
            let young = cache.contains_key(key) && now - cache[key].fetched_at < 60_000_000_000;
            &&& after.contains_key(key) <==> young
            &&& other != key ==> (after.contains_key(other) <==> cache.contains_key(other))
            &&& after.contains_key(other) ==> after[other] == cache[other]
        }),
{
}

} // verus!
