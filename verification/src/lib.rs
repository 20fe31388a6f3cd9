//! Shielded-receive middleware for inbound token-transfer packets.
//!
//! A transfer packet whose memo carries a `shielded_recv` directive must name
//! the shielded pool as its receiver. This crate holds the decisions of that
//! middleware, the memo format, and the bridge through which the amount above
//! the shielded target is minted or released to a transparent account.

pub mod amount;
pub mod json;
pub mod packet;
pub mod metadata;
pub mod ack;
pub mod middleware;
pub mod bridge;
