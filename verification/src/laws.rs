//! What the executable functions promise, stated over their inputs and results.
//!
//! Each law takes the arguments and the result of one or more calls, with
//! `call_ensures` for "this call may return this", and says how they have to be
//! related.

pub mod broker;
pub mod client;
pub mod daemon;
pub mod enrollment;
pub mod export;
pub mod handles;
pub mod legacy;
pub mod lifecycle;
pub mod messages;
pub mod names;
pub mod operation;
pub mod owner;
pub mod recovery;
pub mod restore;
pub mod runs;
pub mod service;
pub mod session;
pub mod standard;
pub mod store;
pub mod transaction;
pub mod wire;
