//! Hosted MCP tools discovered for one hire, laid over the host's own.

pub mod cache;
pub mod call;
pub mod fanout;
pub mod grants;
pub mod table;
