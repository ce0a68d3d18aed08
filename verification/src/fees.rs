use vstd::prelude::*;

use crate::arith::Balance;
use crate::offchain::SystemEvent;

verus! {

/// How a runtime computes the transaction fees of a block from its events.
/// Fees are customizable on each chain, so each chain supplies its own.
pub trait FeeCalculator {
    fn match_events(events: Vec<SystemEvent>) -> Balance;
}

} // verus!
