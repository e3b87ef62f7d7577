//! Capability surfaces: what a turn may see, and the version that names it.


pub mod assemble;
pub mod evaluate;
pub mod policy;
pub mod question;
pub mod run;
pub mod version;

use vstd::prelude::*;

use crate::capability::{
    CapabilityDescriptor, CapabilityDescriptorView, ResourceEstimate, ResourceEstimateView,
};
use crate::context::{
    ExecutionContext, ExecutionContextView, ProviderTrust, ProviderTrustView,
};
use crate::surface::policy::{CapabilitySurfacePolicy, CapabilitySurfacePolicyView};

verus! {

/// How a visible capability may be used.
#[derive(Debug, Clone, Copy, PartialEq, Eq, Structural)]
pub enum VisibleCapabilityAccess {
    /// Can be invoked directly while the same context stays authorized.
    Available,
    /// Can be asked for; use still waits for approval.
    RequiresApproval,
}

/// The token of an access status.
pub open spec fn access_text(access: VisibleCapabilityAccess) -> Seq<char> {
    match access {
        VisibleCapabilityAccess::Available => "available"@,
        VisibleCapabilityAccess::RequiresApproval => "requires_approval"@,
    }
}

/// The token of an access status.
pub fn access_token(access: VisibleCapabilityAccess) -> (r: &'static str)
    ensures
        r@ == access_text(access),
{
    match access {
        VisibleCapabilityAccess::Available => "available",
        VisibleCapabilityAccess::RequiresApproval => "requires_approval",
    }
}

/// Capability metadata that may be rendered on a tool surface.
///
/// Visibility is no authority: invocation checks trust, grants and approvals again.
#[derive(Debug, PartialEq, Eq)]
pub struct VisibleCapability {
    pub descriptor: CapabilityDescriptor,
    pub access: VisibleCapabilityAccess,
    /// Estimate the visibility check was made with.
    pub estimated_resources: ResourceEstimate,
}

/// The mathematical value of a [`VisibleCapability`].
#[verifier::ext_equal]
pub struct VisibleCapabilityView {
    pub descriptor: CapabilityDescriptorView,
    pub access: VisibleCapabilityAccess,
    pub estimated_resources: ResourceEstimateView,
}

impl View for VisibleCapability {
    type V = VisibleCapabilityView;

    open spec fn view(&self) -> VisibleCapabilityView {
        VisibleCapabilityView {
            descriptor: self.descriptor@,
            access: self.access,
            estimated_resources: self.estimated_resources@,
        }
    }
}

impl DeepView for VisibleCapability {
    type V = VisibleCapabilityView;

    open spec fn deep_view(&self) -> VisibleCapabilityView {
        self@
    }
}

impl Clone for VisibleCapability {
    fn clone(&self) -> (r: Self)
        ensures
            r@ == self@,
    {
        VisibleCapability {
            descriptor: self.descriptor.clone(),
            access: self.access,
            estimated_resources: self.estimated_resources.clone(),
        }
    }
}

/// Why a host-runtime request failed.
#[derive(Debug, PartialEq, Eq)]
pub enum HostRuntimeError {
    /// The request, or what it refers to, is not valid.
    InvalidRequest { reason: String },
    /// Any other failure the host reported.
    Failed { reason: String },
}

/// The mathematical value of a [`HostRuntimeError`].
#[verifier::ext_equal]
pub enum HostRuntimeErrorView {
    InvalidRequest { reason: Seq<char> },
    Failed { reason: Seq<char> },
}

impl View for HostRuntimeError {
    type V = HostRuntimeErrorView;

    open spec fn view(&self) -> HostRuntimeErrorView {
        match self {
            HostRuntimeError::InvalidRequest { reason } => HostRuntimeErrorView::InvalidRequest {
                reason: reason@,
            },
            HostRuntimeError::Failed { reason } => HostRuntimeErrorView::Failed { reason: reason@ },
        }
    }
}

impl DeepView for HostRuntimeError {
    type V = HostRuntimeErrorView;

    open spec fn deep_view(&self) -> HostRuntimeErrorView {
        self@
    }
}

impl Clone for HostRuntimeError {
    fn clone(&self) -> (r: Self)
        ensures
            r@ == self@,
    {
        match self {
            HostRuntimeError::InvalidRequest { reason } => HostRuntimeError::InvalidRequest {
                reason: reason.clone(),
            },
            HostRuntimeError::Failed { reason } => HostRuntimeError::Failed {
                reason: reason.clone(),
            },
        }
    }
}

impl HostRuntimeError {
    /// An invalid request.
    pub fn invalid_request(reason: String) -> (r: Self)
        ensures
            r@ == (HostRuntimeErrorView::InvalidRequest { reason: reason@ }),
    {
        HostRuntimeError::InvalidRequest { reason }
    }
}

/// Where a descriptor came from. A schema that cannot be resolved fails the
/// surface for the host's own descriptors and omits a discovered one.
#[derive(Debug, Clone, Copy, PartialEq, Eq, Structural)]
pub enum DescriptorSource {
    Floor,
    Overlay,
}

/// A request for the capabilities a turn may see.
#[derive(Debug, PartialEq, Eq)]
pub struct VisibleCapabilityRequest {
    pub context: ExecutionContext,
    pub surface_kind: String,
    pub policy: CapabilitySurfacePolicy,
    pub provider_trust: Vec<ProviderTrust>,
}

/// The mathematical value of a [`VisibleCapabilityRequest`].
#[verifier::ext_equal]
pub struct VisibleCapabilityRequestView {
    pub context: ExecutionContextView,
    pub surface_kind: Seq<char>,
    pub policy: CapabilitySurfacePolicyView,
    pub provider_trust: Seq<ProviderTrustView>,
}

impl View for VisibleCapabilityRequest {
    type V = VisibleCapabilityRequestView;

    open spec fn view(&self) -> VisibleCapabilityRequestView {
        VisibleCapabilityRequestView {
            context: self.context@,
            surface_kind: self.surface_kind@,
            policy: self.policy@,
            provider_trust: self.provider_trust.deep_view(),
        }
    }
}

impl DeepView for VisibleCapabilityRequest {
    type V = VisibleCapabilityRequestView;

    open spec fn deep_view(&self) -> VisibleCapabilityRequestView {
        self@
    }
}

impl Clone for VisibleCapabilityRequest {
    fn clone(&self) -> (r: Self)
        ensures
            r@ == self@,
    {
        let r = VisibleCapabilityRequest {
            context: self.context.clone(),
            surface_kind: self.surface_kind.clone(),
            policy: self.policy.clone(),
            provider_trust: self.provider_trust.clone(),
        };
        assert(r.provider_trust.deep_view() =~= self.provider_trust.deep_view());
        r
    }
}

} // verus!
