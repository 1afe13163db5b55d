//! Verified core of the Nucleus dashboard service: RPC client settings,
//! health probing, nucleus pagination and the text renderings of chain data.

pub mod address;
pub mod config;
pub mod nucleus;
pub mod rpc_client;
pub mod text;
pub mod walk;
