//! Capability surfaces, hosted-MCP discovery, approvals and skill listings for
//! an agent host, with every decision stated as a contract and proved.

pub mod agent_market;
pub mod approval;
pub mod capability;
pub mod context;
pub mod egress;
pub mod grant;
pub mod ids;
pub mod json;
pub mod lookup;
pub mod mcp;
pub mod order;
pub mod outcome;
pub mod overlay;
pub mod package;
pub mod readiness;
pub mod registry;
pub mod scope;
pub mod skills;
pub mod surface;
pub mod text;
pub mod token;
pub mod web;
