//! Verified core of the Polaris contracts: the vault, the agent's
//! authorization registry, the protocol adapters and the pools they talk to,
//! each as a state machine over plain values.

pub mod address;
pub mod arith;
pub mod auth;
pub mod blend_adapter;
pub mod mock_blend_pool;
pub mod mock_phoenix_pool;
pub mod mock_pool;
pub mod phoenix_adapter;
pub mod table;
pub mod vault;
pub mod zk_verifier;
