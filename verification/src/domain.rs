//! Domain model: persisted node connection profiles and the transient
//! values that flow through the configuration endpoints.

use vstd::prelude::*;

verus! {

/// A persisted node connection profile.  At most one profile is active
/// across the whole store at any observable instant.
#[derive(Debug)]
pub struct NodeConfig {
    pub id: String,
    pub name: String,
    pub rpc_url: String,
    pub rpc_user: String,
    pub rpc_password: String,
    pub network: String,
    pub is_active: bool,
}

/// Mathematical image of a [`NodeConfig`]: every string as a sequence of
/// characters.
pub struct NodeConfigView {
    pub id: Seq<char>,
    pub name: Seq<char>,
    pub rpc_url: Seq<char>,
    pub rpc_user: Seq<char>,
    pub rpc_password: Seq<char>,
    pub network: Seq<char>,
    pub is_active: bool,
}

impl View for NodeConfig {
    type V = NodeConfigView;

    open spec fn view(&self) -> NodeConfigView {
        NodeConfigView {
            id: self.id@,
            name: self.name@,
            rpc_url: self.rpc_url@,
            rpc_user: self.rpc_user@,
            rpc_password: self.rpc_password@,
            network: self.network@,
            is_active: self.is_active,
        }
    }
}

impl Clone for NodeConfig {
    fn clone(&self) -> (r: Self)
        ensures
            r@ == self@,
    {
        NodeConfig {
            id: self.id.clone(),
            name: self.name.clone(),
            rpc_url: self.rpc_url.clone(),
            rpc_user: self.rpc_user.clone(),
            rpc_password: self.rpc_password.clone(),
            network: self.network.clone(),
            is_active: self.is_active,
        }
    }
}

/// Transient input for creating a profile: no identity and no active
/// flag, both are assigned by the store.
#[derive(Debug)]
pub struct NewNodeConfig {
    pub name: String,
    pub rpc_url: String,
    pub rpc_user: String,
    pub rpc_password: String,
    pub network: String,
}

/// Mathematical image of a [`NewNodeConfig`].
pub struct NewNodeConfigView {
    pub name: Seq<char>,
    pub rpc_url: Seq<char>,
    pub rpc_user: Seq<char>,
    pub rpc_password: Seq<char>,
    pub network: Seq<char>,
}

impl View for NewNodeConfig {
    type V = NewNodeConfigView;

    open spec fn view(&self) -> NewNodeConfigView {
        NewNodeConfigView {
            name: self.name@,
            rpc_url: self.rpc_url@,
            rpc_user: self.rpc_user@,
            rpc_password: self.rpc_password@,
            network: self.network@,
        }
    }
}

impl Clone for NewNodeConfig {
    fn clone(&self) -> (r: Self)
        ensures
            r@ == self@,
    {
        NewNodeConfig {
            name: self.name.clone(),
            rpc_url: self.rpc_url.clone(),
            rpc_user: self.rpc_user.clone(),
            rpc_password: self.rpc_password.clone(),
            network: self.network.clone(),
        }
    }
}

/// A credential triple for the remote node, as read from the process
/// environment at startup.
#[derive(Debug)]
pub struct BitcoinConfig {
    pub rpc_url: String,
    pub rpc_user: String,
    pub rpc_pass: String,
}

/// Synchronisation state of the remote node.  `progress` carries the
/// verification-progress fraction as decimal text, as serde_json
/// renders the parsed number.
#[derive(Debug)]
pub struct SyncInfo {
    pub is_synced: bool,
    pub progress: String,
}

/// Fixed descriptor of the backend the status projection reports.
#[derive(Debug)]
pub struct BackendInfo {
    pub version: String,
    pub node_type: &'static str,
}

/// The flat read-only status projection surfaced to clients.
/// `verification_progress` carries the reported fraction as decimal
/// text, as serde_json renders the parsed number.
#[derive(Debug)]
pub struct NodeInfo {
    pub network: String,
    pub block_height: u64,
    pub best_block_hash: String,
    pub sync: SyncInfo,
    pub pruned: bool,
    pub verification_progress: String,
    pub backend: BackendInfo,
}

} // verus!
