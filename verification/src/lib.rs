//! A lottery registry: lotteries are created by an owner, receive investments
//! from other accounts, and are finalized at their expiry block.

pub mod store;
pub mod types;
pub mod outside;
pub mod model;
pub mod registry;
pub mod laws;
