//! Capability grants, leases and the principals they name.

use vstd::prelude::*;

use crate::capability::{
    EffectKind, NetworkPolicy, NetworkPolicyView, ResourceCeiling, ResourceCeilingView,
};
use crate::ids::{CapabilityId, SecretHandle};

verus! {

/// Who is granted authority, or issues it.
#[derive(Debug, PartialEq, Eq)]
pub enum Principal {
    /// An extension.
    Extension(String),
    /// The host itself.
    HostRuntime,
    /// Anyone else, by a text that names them.
    Other(String),
}

/// The mathematical value of a [`Principal`].
#[verifier::ext_equal]
pub enum PrincipalView {
    Extension(Seq<char>),
    HostRuntime,
    Other(Seq<char>),
}

impl View for Principal {
    type V = PrincipalView;

    open spec fn view(&self) -> PrincipalView {
        match self {
            Principal::Extension(a) => PrincipalView::Extension(a@),
            Principal::HostRuntime => PrincipalView::HostRuntime,
            Principal::Other(a) => PrincipalView::Other(a@),
        }
    }
}

impl DeepView for Principal {
    type V = PrincipalView;

    open spec fn deep_view(&self) -> PrincipalView {
        self@
    }
}

impl Clone for Principal {
    fn clone(&self) -> (r: Self)
        ensures
            r@ == self@,
    {
        match self {
            Principal::Extension(a) => Principal::Extension(a.clone()),
            Principal::HostRuntime => Principal::HostRuntime,
            Principal::Other(a) => Principal::Other(a.clone()),
        }
    }
}

/// One mounted path.
#[derive(Debug, PartialEq, Eq)]
pub struct MountGrant {
    pub alias: String,
    pub target: String,
}

/// The mathematical value of a [`MountGrant`].
#[verifier::ext_equal]
pub struct MountGrantView {
    pub alias: Seq<char>,
    pub target: Seq<char>,
}

impl View for MountGrant {
    type V = MountGrantView;

    open spec fn view(&self) -> MountGrantView {
        MountGrantView {
            alias: self.alias@,
            target: self.target@,
        }
    }
}

impl DeepView for MountGrant {
    type V = MountGrantView;

    open spec fn deep_view(&self) -> MountGrantView {
        self@
    }
}

impl Clone for MountGrant {
    fn clone(&self) -> (r: Self)
        ensures
            r@ == self@,
    {
        MountGrant {
            alias: self.alias.clone(),
            target: self.target.clone(),
        }
    }
}

/// The paths mounted for a scope.
#[derive(Debug, PartialEq, Eq)]
pub struct MountView {
    pub mounts: Vec<MountGrant>,
}

/// The mathematical value of a [`MountView`].
#[verifier::ext_equal]
pub struct MountViewView {
    pub mounts: Seq<MountGrantView>,
}

impl View for MountView {
    type V = MountViewView;

    open spec fn view(&self) -> MountViewView {
        MountViewView {
            mounts: self.mounts.deep_view(),
        }
    }
}

impl DeepView for MountView {
    type V = MountViewView;

    open spec fn deep_view(&self) -> MountViewView {
        self@
    }
}

impl Clone for MountView {
    fn clone(&self) -> (r: Self)
        ensures
            r@ == self@,
    {
        let r = MountView {
            mounts: self.mounts.clone(),
        };
        assert(r.mounts.deep_view() =~= self.mounts.deep_view());
        r
    }
}

/// Bounds on what a grant or lease allows.
#[derive(Debug, PartialEq, Eq)]
pub struct GrantConstraints {
    pub allowed_effects: Vec<EffectKind>,
    pub mounts: MountView,
    pub network: NetworkPolicy,
    pub secrets: Vec<SecretHandle>,
    pub resource_ceiling: Option<ResourceCeiling>,
    /// Nanoseconds since the Unix epoch.
    pub expires_at: Option<i128>,
    pub max_invocations: Option<u64>,
}

/// The mathematical value of a [`GrantConstraints`].
#[verifier::ext_equal]
pub struct GrantConstraintsView {
    pub allowed_effects: Seq<EffectKind>,
    pub mounts: MountViewView,
    pub network: NetworkPolicyView,
    pub secrets: Seq<Seq<char>>,
    pub resource_ceiling: Option<ResourceCeilingView>,
    pub expires_at: Option<i128>,
    pub max_invocations: Option<u64>,
}

impl View for GrantConstraints {
    type V = GrantConstraintsView;

    open spec fn view(&self) -> GrantConstraintsView {
        GrantConstraintsView {
            allowed_effects: self.allowed_effects@,
            mounts: self.mounts@,
            network: self.network@,
            secrets: self.secrets.deep_view(),
            resource_ceiling: self.resource_ceiling.deep_view(),
            expires_at: self.expires_at,
            max_invocations: self.max_invocations,
        }
    }
}

impl DeepView for GrantConstraints {
    type V = GrantConstraintsView;

    open spec fn deep_view(&self) -> GrantConstraintsView {
        self@
    }
}

impl Clone for GrantConstraints {
    fn clone(&self) -> (r: Self)
        ensures
            r@ == self@,
    {
        let r = GrantConstraints {
            allowed_effects: self.allowed_effects.clone(),
            mounts: self.mounts.clone(),
            network: self.network.clone(),
            secrets: self.secrets.clone(),
            resource_ceiling: self.resource_ceiling.clone(),
            expires_at: self.expires_at,
            max_invocations: self.max_invocations,
        };
        assert(r.allowed_effects@ =~= self.allowed_effects@);
        assert(r.secrets.deep_view() =~= self.secrets.deep_view());
        assert(r.resource_ceiling.deep_view() =~= self.resource_ceiling.deep_view());
        r
    }
}

/// Authority to use one capability.
///
/// The identifier of a grant is stamped where it enters a context.
#[derive(Debug, PartialEq, Eq)]
pub struct CapabilityGrant {
    pub capability: CapabilityId,
    pub grantee: Principal,
    pub issued_by: Principal,
    pub constraints: GrantConstraints,
}

/// The mathematical value of a [`CapabilityGrant`].
#[verifier::ext_equal]
pub struct CapabilityGrantView {
    pub capability: Seq<char>,
    pub grantee: PrincipalView,
    pub issued_by: PrincipalView,
    pub constraints: GrantConstraintsView,
}

impl View for CapabilityGrant {
    type V = CapabilityGrantView;

    open spec fn view(&self) -> CapabilityGrantView {
        CapabilityGrantView {
            capability: self.capability@,
            grantee: self.grantee@,
            issued_by: self.issued_by@,
            constraints: self.constraints@,
        }
    }
}

impl DeepView for CapabilityGrant {
    type V = CapabilityGrantView;

    open spec fn deep_view(&self) -> CapabilityGrantView {
        self@
    }
}

impl Clone for CapabilityGrant {
    fn clone(&self) -> (r: Self)
        ensures
            r@ == self@,
    {
        CapabilityGrant {
            capability: self.capability.clone(),
            grantee: self.grantee.clone(),
            issued_by: self.issued_by.clone(),
            constraints: self.constraints.clone(),
        }
    }
}

/// Terms under which an approved action may run.
#[derive(Debug, PartialEq, Eq)]
pub struct LeaseApproval {
    pub issued_by: Principal,
    pub constraints: GrantConstraints,
}

/// The mathematical value of a [`LeaseApproval`].
#[verifier::ext_equal]
pub struct LeaseApprovalView {
    pub issued_by: PrincipalView,
    pub constraints: GrantConstraintsView,
}

impl View for LeaseApproval {
    type V = LeaseApprovalView;

    open spec fn view(&self) -> LeaseApprovalView {
        LeaseApprovalView {
            issued_by: self.issued_by@,
            constraints: self.constraints@,
        }
    }
}

impl DeepView for LeaseApproval {
    type V = LeaseApprovalView;

    open spec fn deep_view(&self) -> LeaseApprovalView {
        self@
    }
}

impl Clone for LeaseApproval {
    fn clone(&self) -> (r: Self)
        ensures
            r@ == self@,
    {
        LeaseApproval {
            issued_by: self.issued_by.clone(),
            constraints: self.constraints.clone(),
        }
    }
}

} // verus!
