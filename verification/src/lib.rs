//! Control-plane core of a streaming data platform: a binary wire protocol
//! with typed requests and responses, a per-connection dispatch state machine,
//! a generic revision-ordered resource store, and the controller context that
//! aggregates one store per resource kind.

pub mod codec;
pub mod context;
pub mod import;
pub mod protocol;
pub mod service;
pub mod store;
