//! A collaborative pixel canvas on a ledger: patch, settings and gameplay-token
//! records addressed by derived addresses, with a verified byte codec and
//! verified state transitions for every instruction.
use vstd::prelude::*;

pub mod address;
pub mod bytes;
pub mod client;
pub mod error;
pub mod guarantees;
pub mod instruction;
pub mod palette;
pub mod processor;
pub mod pubkey;
pub mod state;
pub mod tapestry;
pub mod tapestry_processor;
pub mod tapestry_state;
pub mod token;

verus! {

} // verus!
