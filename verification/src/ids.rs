//! Identifiers that cross the host boundary.
//!
//! The host validates identifiers before they get here; the decisions only
//! compare, copy and order them.

use vstd::prelude::*;

verus! {

pub type TenantId = String;

pub type UserId = String;

pub type AgentId = String;

pub type ProjectId = String;

pub type MissionId = String;

pub type ThreadId = String;

pub type ExtensionId = String;

pub type CapabilityId = String;

/// Name under which secret material is stored; never the material itself.
pub type SecretHandle = String;

/// Identity of one claimed run. Fresh for every run of the same agent.
pub type InvocationId = u128;

} // verus!
