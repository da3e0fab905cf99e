//! A one-way relay core: reads a committed root out of a source ledger
//! account snapshot, derives the destination address for it, and assembles
//! the exact instruction bytes to republish it on the destination ledger.
//!
//! The surrounding process (RPC clients, wallet loading, the timer loop)
//! lives outside this crate; everything here is plain logic on bytes,
//! slots and addresses, with its behaviour stated in contracts.

pub mod address;
pub mod codec;
pub mod cycle;
pub mod errors;
pub mod extract;
pub mod retry;
