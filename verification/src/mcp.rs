//! Hosted MCP servers: endpoints, egress plans and discovery.

pub mod discovery;
pub mod endpoint;
pub mod planner;
