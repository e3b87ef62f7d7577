//! Ambient grants for discovered capabilities.

use vstd::prelude::*;

use crate::capability::{
    CapabilityDescriptor, CapabilityDescriptorView, NetworkPolicy, NetworkPolicyView,
    NetworkTargetPattern, NetworkTargetPatternView, PermissionMode, RuntimeCredentialRequirement,
    RuntimeCredentialRequirementView,
};
use crate::grant::{
    CapabilityGrant, CapabilityGrantView, GrantConstraints, GrantConstraintsView, MountGrant,
    MountView, MountViewView, Principal, PrincipalView,
};
use crate::ids::{ExtensionId, SecretHandle};
use crate::scope::{hire_of, HireScope, ResourceScope};

verus! {

/// Nanoseconds an ambient grant stays valid: five minutes.
pub const AMBIENT_GRANT_TTL_NANOS: i128 = 300000000000;

/// The audiences of some credentials.
pub open spec fn audiences_of(credentials: Seq<RuntimeCredentialRequirementView>) -> Seq<
    NetworkTargetPatternView,
> {
    credentials.map_values(|credential: RuntimeCredentialRequirementView| credential.audience)
}

/// The handles of some credentials.
pub open spec fn handles_of(credentials: Seq<RuntimeCredentialRequirementView>) -> Seq<Seq<char>> {
    credentials.map_values(|credential: RuntimeCredentialRequirementView| credential.handle)
}

/// The ambient grant of a discovered capability: its own effects, credential
/// audiences and handles, for a bounded time and any number of invocations.
pub open spec fn ambient_grant(
    descriptor: CapabilityDescriptorView,
    grantee: Seq<char>,
    now: i128,
) -> CapabilityGrantView {
    CapabilityGrantView {
        capability: descriptor.id,
        grantee: PrincipalView::Extension(grantee),
        issued_by: PrincipalView::HostRuntime,
        constraints: GrantConstraintsView {
            allowed_effects: descriptor.effects,
            mounts: MountViewView { mounts: Seq::empty() },
            network: NetworkPolicyView {
                allowed_targets: audiences_of(descriptor.runtime_credentials),
                deny_private_ip_ranges: true,
                max_egress_bytes: None,
            },
            secrets: handles_of(descriptor.runtime_credentials),
            resource_ceiling: None,
            expires_at: Some((now + AMBIENT_GRANT_TTL_NANOS) as i128),
            max_invocations: None,
        },
    }
}

/// Whether a discovered capability asks before use.
pub open spec fn asks() -> spec_fn(CapabilityDescriptorView) -> bool {
    |descriptor: CapabilityDescriptorView| descriptor.default_permission == PermissionMode::Ask
}

/// One ambient grant for each discovered capability that asks before use.
pub open spec fn ambient_grants(
    discovered: Seq<CapabilityDescriptorView>,
    grantee: Seq<char>,
    now: i128,
) -> Seq<CapabilityGrantView> {
    discovered.filter(asks()).map_values(
        |descriptor: CapabilityDescriptorView| ambient_grant(descriptor, grantee, now),
    )
}

/// Mints ambient grants for discovered capabilities.
#[derive(Debug, Clone, Copy, PartialEq, Eq)]
pub struct DiscoveredCapabilityGrantSource {
    /// Whether an overlay is attached.
    pub has_overlay: bool,
}

fn audiences(credentials: &Vec<RuntimeCredentialRequirement>) -> (r: Vec<NetworkTargetPattern>)
    ensures
        r.deep_view() == audiences_of(credentials.deep_view()),
{
    let mut out: Vec<NetworkTargetPattern> = Vec::new();
    let ghost views = credentials.deep_view();
    let mut i: usize = 0;
    assert(out.deep_view() =~= audiences_of(views.take(0)));
    while i < credentials.len()
        invariant
            views == credentials.deep_view(),
            i <= credentials@.len(),
            out.deep_view() == audiences_of(views.take(i as int)),
        decreases credentials@.len() - i,
    {
        let ghost before = out.deep_view();
        let audience = credentials[i].audience.clone();
        let ghost added = audience@;
        out.push(audience);
        assert(out.deep_view() =~= before.push(added));
        assert(before.push(added) =~= audiences_of(views.take(i + 1)));
        i = i + 1;
    }
    assert(views.take(views.len() as int) =~= views);
    out
}

fn handles(credentials: &Vec<RuntimeCredentialRequirement>) -> (r: Vec<SecretHandle>)
    ensures
        r.deep_view() == handles_of(credentials.deep_view()),
{
    let mut out: Vec<SecretHandle> = Vec::new();
    let ghost views = credentials.deep_view();
    let mut i: usize = 0;
    assert(out.deep_view() =~= handles_of(views.take(0)));
    while i < credentials.len()
        invariant
            views == credentials.deep_view(),
            i <= credentials@.len(),
            out.deep_view() == handles_of(views.take(i as int)),
        decreases credentials@.len() - i,
    {
        let ghost before = out.deep_view();
        let handle = credentials[i].handle.clone();
        let ghost added = handle@;
        out.push(handle);
        assert(out.deep_view() =~= before.push(added));
        assert(before.push(added) =~= handles_of(views.take(i + 1)));
        i = i + 1;
    }
    assert(views.take(views.len() as int) =~= views);
    out
}

impl DiscoveredCapabilityGrantSource {
    /// A source with or without an overlay.
    pub fn new(has_overlay: bool) -> (r: Self)
        ensures
            r.has_overlay == has_overlay,
    {
        DiscoveredCapabilityGrantSource { has_overlay }
    }

    /// The hire to discover for. `None` means that discovery is not asked.
    pub fn hire_to_discover(&self, scope: &ResourceScope) -> (r: Option<HireScope>)
        ensures
            r.deep_view() == (if self.has_overlay {
                hire_of(scope@)
            } else {
                None
            }),
    {
        if self.has_overlay {
            HireScope::from_scope(scope)
        } else {
            None
        }
    }

    /// One ambient grant for each discovered capability that asks before use.
    /// Without an overlay, or without an agent in the scope, there are none.
    pub fn grants_for_scope(
        &self,
        scope: &ResourceScope,
        grantee: &ExtensionId,
        discovered: &Vec<CapabilityDescriptor>,
        now: i128,
    ) -> (r: Vec<CapabilityGrant>)
        requires
            now + AMBIENT_GRANT_TTL_NANOS <= i128::MAX,
        ensures
            r.deep_view() == (if self.has_overlay && hire_of(scope@) is Some {
                ambient_grants(discovered.deep_view(), grantee@, now)
            } else {
                Seq::empty()
            }),
    {
        let mut out: Vec<CapabilityGrant> = Vec::new();
        assert(out.deep_view() =~= Seq::empty());
        if self.hire_to_discover(scope).is_none() {
            return out;
        }
        let ghost views = discovered.deep_view();
        let mut i: usize = 0;
        proof {
            reveal(Seq::filter);
        }
        assert(out.deep_view() =~= ambient_grants(views.take(0), grantee@, now));
        while i < discovered.len()
            invariant
                now + AMBIENT_GRANT_TTL_NANOS <= i128::MAX,
                views == discovered.deep_view(),
                i <= discovered@.len(),
                out.deep_view() == ambient_grants(views.take(i as int), grantee@, now),
            decreases discovered@.len() - i,
        {
            let descriptor = &discovered[i];
            let ghost before = out.deep_view();
            proof {
                reveal(Seq::filter);
                assert(views.take(i + 1).drop_last() =~= views.take(i as int));
                assert(views.take(i + 1).last() == descriptor@);
            }
            if descriptor.default_permission == PermissionMode::Ask {
                let grant = mint(descriptor, grantee, now);
                let ghost added = grant@;
                out.push(grant);
                assert(out.deep_view() =~= before.push(added));
            }
            assert(out.deep_view() =~= ambient_grants(views.take(i + 1), grantee@, now));
            i = i + 1;
        }
        assert(views.take(views.len() as int) =~= views);
        out
    }
}

fn mint(descriptor: &CapabilityDescriptor, grantee: &ExtensionId, now: i128) -> (r: CapabilityGrant)
    requires
        now + AMBIENT_GRANT_TTL_NANOS <= i128::MAX,
    ensures
        r@ == ambient_grant(descriptor@, grantee@, now),
{
    let mounts: Vec<MountGrant> = Vec::new();
    let grant = CapabilityGrant {
        capability: descriptor.id.clone(),
        grantee: Principal::Extension(grantee.clone()),
        issued_by: Principal::HostRuntime,
        constraints: GrantConstraints {
            allowed_effects: descriptor.effects.clone(),
            mounts: MountView { mounts },
            network: NetworkPolicy {
                allowed_targets: audiences(&descriptor.runtime_credentials),
                deny_private_ip_ranges: true,
                max_egress_bytes: None,
            },
            secrets: handles(&descriptor.runtime_credentials),
            resource_ceiling: None,
            expires_at: Some(now + AMBIENT_GRANT_TTL_NANOS),
            max_invocations: None,
        },
    };
    assert(grant@.constraints.allowed_effects =~= descriptor@.effects);
    assert(grant@.constraints.mounts.mounts =~= Seq::empty());
    grant
}

/// Every discovered capability that asks before use has its ambient grant.
pub proof fn law_every_asking_capability_has_an_ambient_grant(
    discovered: Seq<CapabilityDescriptorView>,
    grantee: Seq<char>,
    now: i128,
    at: int,
)
    requires
        0 <= at < discovered.len(),
        discovered[at].default_permission == PermissionMode::Ask,
    ensures
        ambient_grants(discovered, grantee, now).contains(
            ambient_grant(discovered[at], grantee, now),
        ),
{
    let kept = discovered.filter(asks());
    discovered.lemma_filter_contains(asks(), at);
    let k = choose|k: int| 0 <= k < kept.len() && kept[k] == discovered[at];
    assert(ambient_grants(discovered, grantee, now)[k] == ambient_grant(
        discovered[at],
        grantee,
        now,
    ));
}

/// No ambient grant is wider than the capability it is for: it names only
/// discovered capabilities that ask before use, and it expires.
pub proof fn law_ambient_grants_are_narrow(
    discovered: Seq<CapabilityDescriptorView>,
    grantee: Seq<char>,
    now: i128,
    at: int,
)
    requires
        0 <= at < ambient_grants(discovered, grantee, now).len(),
        now + AMBIENT_GRANT_TTL_NANOS <= i128::MAX,
    ensures
        exists|k: int|
            0 <= k < discovered.len() && (#[trigger] discovered[k]).default_permission
                == PermissionMode::Ask && ambient_grants(discovered, grantee, now)[at]
                == ambient_grant(discovered[k], grantee, now),
        ambient_grants(discovered, grantee, now)[at].constraints.expires_at == Some(
            (now + AMBIENT_GRANT_TTL_NANOS) as i128,
        ),
{
    let kept = discovered.filter(asks());
    assert(kept.contains(kept[at]));
    discovered.lemma_filter_contains_rev(asks(), kept[at]);
    broadcast use vstd::seq_lib::group_filter_ensures;
    assert(asks()(kept[at]));
    let k = choose|k: int| 0 <= k < discovered.len() && discovered[k] == kept[at];
    assert(discovered[k].default_permission == PermissionMode::Ask);
}

/// An ambient grant is for the very capability and the very extension, issued by the
/// host. It allows the effects of the capability, the audiences and the handles of its
/// credentials, one for each and in their order, and nothing else: no mount, no private
/// address. It lasts five minutes, and any number of invocations.
pub proof fn law_ambient_grant_is_of_its_capability(
    descriptor: CapabilityDescriptorView,
    grantee: Seq<char>,
    now: i128,
)
    requires
        now + 300_000_000_000 <= i128::MAX,
    ensures
        ({
            let grant = ambient_grant(descriptor, grantee, now);
            let terms = grant.constraints;
            let credentials = descriptor.runtime_credentials;
            &&& grant.capability == descriptor.id
            &&& grant.grantee == PrincipalView::Extension(grantee)
            &&& grant.issued_by == PrincipalView::HostRuntime
            &&& terms.allowed_effects == descriptor.effects
            &&& terms.mounts.mounts.len() == 0
            &&& terms.network.deny_private_ip_ranges
            &&& terms.network.max_egress_bytes is None
            &&& terms.network.allowed_targets.len() == credentials.len()
            &&& terms.secrets.len() == credentials.len()
            &&& forall|k: int|
                0 <= k < credentials.len() ==> #[trigger] terms.network.allowed_targets[k]
                    == credentials[k].audience
            &&& forall|k: int|
                0 <= k < credentials.len() ==> #[trigger] terms.secrets[k] == credentials[k].handle
            &&& terms.resource_ceiling is None
            &&& terms.expires_at is Some
            &&& terms.expires_at->0 == now + 300_000_000_000
            &&& terms.max_invocations is None
        }),
{
}

/// One more discovered capability adds its ambient grant at the end if it asks before
/// use, and nothing else.
pub proof fn law_each_asking_capability_adds_its_grant(
    discovered: Seq<CapabilityDescriptorView>,
    descriptor: CapabilityDescriptorView,
    grantee: Seq<char>,
    now: i128,
)
    ensures
        ambient_grants(Seq::empty(), grantee, now).len() == 0,
        ambient_grants(discovered.push(descriptor), grantee, now) == if
        descriptor.default_permission == PermissionMode::Ask {
            ambient_grants(discovered, grantee, now).push(ambient_grant(descriptor, grantee, now))
        } else {
            ambient_grants(discovered, grantee, now)
        },
{
    reveal(Seq::filter);
    assert(discovered.push(descriptor).drop_last() =~= discovered);
    if descriptor.default_permission == PermissionMode::Ask {
        assert(ambient_grants(discovered.push(descriptor), grantee, now) =~= ambient_grants(
            discovered,
            grantee,
            now,
        ).push(ambient_grant(descriptor, grantee, now)));
    }
}

} // verus!
