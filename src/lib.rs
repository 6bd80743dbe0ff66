//! Withdrawal of a deposit from the chain's stake pool: the epoch at which a prepared
//! deposit unlocks, the largest amount it redeems, the resolution of the chain data
//! that both need, and the capacity check made before a transaction is sent.
use vstd::prelude::*;

pub mod capacity;
pub mod chain;
pub mod epoch;
pub mod resolve;

verus! {

} // verus!
