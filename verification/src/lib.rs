//! Node configuration store and remote RPC client for a Bitcoin backend.
//!
//! The library owns the entity model for persisted node connection
//! profiles, the single-active-profile invariant with its atomic
//! state-transition protocol, and the translation of JSON-RPC responses
//! into typed results with a normalized error taxonomy.  HTTP serving and
//! network transport live outside the library and hand it plain values.

pub mod domain;
pub mod errors;
pub mod json;
pub mod responses;
pub mod rpc;
pub mod store;

pub use domain::{
    BackendInfo, BitcoinConfig, NewNodeConfig, NewNodeConfigView, NodeConfig, NodeConfigView,
    NodeInfo, SyncInfo,
};
pub use errors::AppError;
pub use responses::ApiResponse;
pub use rpc::{
    BitcoinRpc, BlockchainInfo, ErrorFieldShape, ResultFieldShape, RpcBodyShape, RpcRequest,
    TestConnectionResponse, TransportOutcome,
};
pub use store::{DbError, NodeConfigRepository, NodeConfigStore};
