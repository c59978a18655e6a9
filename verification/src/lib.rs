//! Control plane for ACP (Agent Client Protocol) sessions: connections,
//! sessions with their audit trail, permission gates and patch review.
pub mod types;
pub mod table;
pub mod sources;
pub mod model;
pub mod text;
pub mod paths;
pub mod store;
pub mod server;
pub mod laws;
