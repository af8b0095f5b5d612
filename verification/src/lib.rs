//! Verified core of an Ethereum JSON-RPC compatibility layer: resolving block
//! references, reconciling nonces with the pending pool, decoding raw
//! transactions and negotiating how they are submitted.

pub mod block;
pub mod decoder;
pub mod error;
pub mod facade;
pub mod fee;
pub mod genesis;
pub mod nonce;
pub mod overlay;
pub mod pool;
pub mod primitives;
pub mod submit;
pub mod text;
