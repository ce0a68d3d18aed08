use vstd::prelude::*;

use crate::arith::{fee_share, percent_of, Balance};
use crate::pallet::{Config, Pallet};
use crate::types::{AccountId, BlockNumber, Call};

verus! {

/// A runtime event, as far as the fee bookkeeping reads it.
#[derive(Clone, Copy, Debug, PartialEq, Eq)]
pub enum SystemEvent {
    /// A transaction fee `actual_fee`, with tip `tip`, has been paid by `who`.
    TransactionFeePaid { who: AccountId, actual_fee: Balance, tip: Balance },
    /// Any event of any other pallet.
    Other,
}

/// The content of the node-local variable that sums the fees not yet queued.
#[derive(Clone, Copy, Debug, PartialEq, Eq)]
pub enum OffchainValue {
    /// Nothing has been stored yet.
    Absent,
    /// The running sum.
    Stored(Balance),
    /// Something is stored that does not decode as a balance.
    Undecodable,
}

/// The fee that an event reports as paid.
pub open spec fn paid_fee(event: SystemEvent) -> int {
    match event {
        SystemEvent::TransactionFeePaid { who, actual_fee, tip } => actual_fee as int,
        SystemEvent::Other => 0,
    }
}

/// The sum of the fees paid in `events`.
pub open spec fn fee_total(events: Seq<SystemEvent>) -> int
    decreases events.len(),
{
    if events.len() == 0 {
        0
    } else {
        fee_total(events.drop_last()) + paid_fee(events.last())
    }
}

/// `x`, capped at `u64::MAX` (for `x >= 0`).
pub open spec fn cap(x: int) -> u64 {
    if x > u64::MAX {
        u64::MAX
    } else {
        x as u64
    }
}

/// The share of a block's fees that goes to Sequester.
pub open spec fn block_share(config: Config, events: Seq<SystemEvent>) -> u64 {
    percent_of(config.txn_fee_percentage, cap(fee_total(events))) as u64
}

/// The local variable once `fee` has been added to it.
pub open spec fn stored_after(value: OffchainValue, fee: Balance) -> OffchainValue {
    match value {
        OffchainValue::Absent => OffchainValue::Stored(fee),
        OffchainValue::Stored(sum) => OffchainValue::Stored(cap(sum + fee)),
        OffchainValue::Undecodable => OffchainValue::Undecodable,
    }
}

/// The unsigned call that queues the stored sum at block `block_num`, if a sum
/// is stored.
pub open spec fn queued_call(value: OffchainValue, block_num: BlockNumber) -> Option<Call> {
    match value {
        OffchainValue::Stored(sum) => Some(Call::SubmitUnsigned { amount: sum, block_num }),
        _ => None,
    }
}

/// The local variable once the submission of its queued sum has succeeded or
/// failed.
pub open spec fn stored_after_submission(value: OffchainValue, submitted: bool) -> OffchainValue {
    if submitted && value is Stored {
        OffchainValue::Stored(0)
    } else {
        value
    }
}

/// The sum of fees is never negative.
pub proof fn lemma_fee_total_nonnegative(events: Seq<SystemEvent>)
    ensures
        fee_total(events) >= 0,
    decreases events.len(),
{
    if events.len() > 0 {
        lemma_fee_total_nonnegative(events.drop_last());
    }
}

impl Pallet {
    /// The fees paid in a block: the sum of the fees of its
    /// `TransactionFeePaid` events, saturating at `u64::MAX`.
    pub fn calculate_fees_for_block(events: &Vec<SystemEvent>) -> (r: Balance)
        ensures
            r == cap(fee_total(events@)),
    {
        let mut curr_block_fee_sum: Balance = 0;
        let n: usize = events.len();
        for i in 0..n
            invariant
                n == events@.len(),
                curr_block_fee_sum == cap(fee_total(events@.take(i as int))),
        {
            proof {
                let prefix = events@.take(i as int);
                let next = events@.take(i + 1);
                assert(next.drop_last() =~= prefix);
                assert(next.last() == events@[i as int]);
                lemma_fee_total_nonnegative(prefix);
            }
            match &events[i] {
                SystemEvent::TransactionFeePaid { who: _, actual_fee, tip: _ } => {
                    curr_block_fee_sum = curr_block_fee_sum.saturating_add(*actual_fee);
                },
                SystemEvent::Other => {},
            }
        }
        assert(events@.take(n as int) =~= events@);
        curr_block_fee_sum
    }

    /// Adds the fees of a block to the local running sum: an absent sum starts
    /// at `block_fee_sum`, a stored one grows by it (saturating), and a value
    /// that does not decode is left as it is.
    pub fn update_offchain_storage(stored: &mut OffchainValue, block_fee_sum: Balance)
        ensures
            *final(stored) == stored_after(*old(stored), block_fee_sum),
    {
        match *stored {
            OffchainValue::Absent => {
                *stored = OffchainValue::Stored(block_fee_sum);
            },
            OffchainValue::Stored(fetched_txn_fee_sum) => {
                *stored = OffchainValue::Stored(fetched_txn_fee_sum.saturating_add(block_fee_sum));
            },
            OffchainValue::Undecodable => {},
        }
    }

    /// The unsigned call that moves the local running sum on chain at block
    /// `block_num`; none when no sum is stored.
    pub fn queue_pending_txn_fees_onchain(stored: &OffchainValue, block_num: BlockNumber) -> (r:
        Option<Call>)
        ensures
            r == queued_call(*stored, block_num),
    {
        match *stored {
            OffchainValue::Stored(fetched_fees) => Some(
                Call::SubmitUnsigned { amount: fetched_fees, block_num },
            ),
            _ => None,
        }
    }

    /// Resets the local running sum to zero once its submission has succeeded;
    /// after a failed submission it is kept for the next attempt.
    pub fn record_submission(stored: &mut OffchainValue, submitted: bool)
        ensures
            *final(stored) == stored_after_submission(*old(stored), submitted),
    {
        if submitted {
            match *stored {
                OffchainValue::Stored(_) => {
                    *stored = OffchainValue::Stored(0);
                },
                _ => {},
            }
        }
    }

    /// The offchain worker of one block: adds the configured share of the
    /// block's fees to the local running sum and, every update interval,
    /// returns the unsigned call that queues the sum on chain.
    pub fn offchain_worker(
        config: &Config,
        block_number: BlockNumber,
        events: &Vec<SystemEvent>,
        stored: &mut OffchainValue,
    ) -> (r: Option<Call>)
        requires
            config.on_chain_update_interval > 0,
        ensures
            *final(stored) == stored_after(*old(stored), block_share(*config, events@)),
            *final(stored) == stored_after(
                *old(stored),
                percent_of(config.txn_fee_percentage, cap(fee_total(events@))) as u64,
            ),
            block_number % config.on_chain_update_interval == 0 ==> r == queued_call(
                *final(stored),
                block_number,
            ),
            block_number % config.on_chain_update_interval != 0 ==> r is None,
    {
        let block_fee_sum = Self::calculate_fees_for_block(events);
        let share = fee_share(config.txn_fee_percentage, block_fee_sum);
        Self::update_offchain_storage(stored, share);
        if block_number % config.on_chain_update_interval == 0 {
            Self::queue_pending_txn_fees_onchain(stored, block_number)
        } else {
            None
        }
    }
}

} // verus!
