//! Block pointers, substreams block mapping, the uniswap entity-change
//! message types and the store-backed GraphQL resolver logic.

pub mod block;
pub mod text;
pub mod hex;
pub mod uniswap;
pub mod substreams;
pub mod chain;
pub mod value;
pub mod resolver;
