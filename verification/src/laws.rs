use vstd::prelude::*;

use crate::arith::{lemma_percent_of_at_most, percent_of, Balance};
use crate::offchain::{
    block_share, cap, fee_total, queued_call, stored_after, stored_after_submission,
    OffchainValue, SystemEvent,
};
use crate::pallet::{
    saturating_add, source_is_local, spend_applies, spend_outcome, transfer_assets,
    unsigned_verdict, Config,
};
use crate::types::{
    AccountId, AssetId, BlockNumber, Call, Fungibility, InvalidTransaction, MultiLocation,
    TransactionSource,
};

verus! {

/// The sum of a sequence of block shares.
pub open spec fn share_sum(shares: Seq<Balance>) -> int
    decreases shares.len(),
{
    if shares.len() == 0 {
        0
    } else {
        share_sum(shares.drop_last()) + shares.last()
    }
}

/// The local running sum after the shares of successive blocks have been
/// added to `value`, oldest first.
pub open spec fn stored_after_blocks(value: OffchainValue, shares: Seq<Balance>) -> OffchainValue
    decreases shares.len(),
{
    if shares.len() == 0 {
        value
    } else {
        stored_after(stored_after_blocks(value, shares.drop_last()), shares.last())
    }
}

proof fn lemma_share_sum_nonnegative(shares: Seq<Balance>)
    ensures
        share_sum(shares) >= 0,
    decreases shares.len(),
{
    if shares.len() > 0 {
        lemma_share_sum_nonnegative(shares.drop_last());
    }
}

/// Accumulation: from a stored sum `start`, the blocks' shares add up, and the
/// sum saturates at `u64::MAX` rather than wrapping.
pub proof fn lemma_shares_accumulate(start: Balance, shares: Seq<Balance>)
    ensures
        stored_after_blocks(OffchainValue::Stored(start), shares) == OffchainValue::Stored(
            cap(start + share_sum(shares)),
        ),
    decreases shares.len(),
{
    if shares.len() > 0 {
        lemma_shares_accumulate(start, shares.drop_last());
        lemma_share_sum_nonnegative(shares.drop_last());
    }
}

/// Accumulation from nothing: once some block has been processed, the local
/// variable holds the (saturated) sum of all the blocks' shares.
pub proof fn lemma_shares_accumulate_from_absent(shares: Seq<Balance>)
    requires
        shares.len() > 0,
    ensures
        stored_after_blocks(OffchainValue::Absent, shares) == OffchainValue::Stored(
            cap(share_sum(shares)),
        ),
    decreases shares.len(),
{
    if shares.len() == 1 {
        assert(shares.drop_last().len() == 0);
        assert(share_sum(shares.drop_last()) == 0);
    } else {
        lemma_shares_accumulate_from_absent(shares.drop_last());
        lemma_share_sum_nonnegative(shares.drop_last());
    }
}

/// Queueing hands the whole stored sum to the unsigned call, and once that
/// call has been submitted the local sum starts again from zero; a failed
/// submission keeps the sum for the next interval.
pub proof fn lemma_queue_then_reset(value: OffchainValue, block_num: BlockNumber)
    requires
        value is Stored,
    ensures
        queued_call(value, block_num) == Some(
            Call::SubmitUnsigned { amount: value->Stored_0, block_num },
        ),
        stored_after_submission(value, true) == OffchainValue::Stored(0),
        stored_after_submission(value, false) == value,
{
}

/// One unsigned submission per interval: after `submit_unsigned` for block
/// `block_num` has moved `next_unsigned_at` to `block_num + interval`, any
/// further submission for an earlier block is refused as stale.
pub proof fn lemma_one_submission_per_interval(
    block_num: BlockNumber,
    interval: BlockNumber,
    source: TransactionSource,
    amount: Balance,
    later_block: BlockNumber,
    current_block: BlockNumber,
)
    requires
        block_num + interval <= u64::MAX,
        later_block < block_num + interval,
        source_is_local(source),
    ensures
        unsigned_verdict(
            (block_num + interval) as BlockNumber,
            source,
            Call::SubmitUnsigned { amount, block_num: later_block },
            current_block,
        ) == Err::<(), InvalidTransaction>(InvalidTransaction::Stale),
{
}

/// An accepted unsigned submission is for a block that is neither before
/// `next_unsigned_at` nor after the current block, and comes from the local
/// node.
pub proof fn lemma_accepted_submission_in_window(
    next_unsigned_at: BlockNumber,
    source: TransactionSource,
    call: Call,
    current_block: BlockNumber,
)
    requires
        unsigned_verdict(next_unsigned_at, source, call, current_block) is Ok,
    ensures
        call matches Call::SubmitUnsigned { amount, block_num } && next_unsigned_at <= block_num
            <= current_block,
        source_is_local(source),
{
}

/// What is queued is what is spent: fees queued by `submit_unsigned` on top of
/// `pending`, once above the transfer minimum and within the treasury budget,
/// are exactly what `spend_funds` deposits into the Sequester account.
pub proof fn lemma_queued_fees_are_spent(
    pending: Balance,
    amount: Balance,
    minimum: Balance,
    budget: Balance,
)
    requires
        saturating_add(pending, amount) > minimum,
        budget >= saturating_add(pending, amount),
    ensures
        spend_outcome(saturating_add(pending, amount), minimum, budget) == Some(
            saturating_add(pending, amount),
        ),
{
}

/// A block without fees adds nothing: the share of zero is zero.
pub proof fn lemma_no_fees_no_share(parts: u8)
    ensures
        percent_of(parts, 0) == 0,
{
}

/// Every block of the window is accepted: an unsigned submission from the
/// local node (or already in a block) for any block from `next_unsigned_at`
/// up to the current block is valid, not only one for the current block.
pub proof fn lemma_window_accepted(
    next_unsigned_at: BlockNumber,
    source: TransactionSource,
    amount: Balance,
    block_num: BlockNumber,
    current_block: BlockNumber,
)
    requires
        source == TransactionSource::Local || source == TransactionSource::InBlock,
        next_unsigned_at <= block_num,
        block_num <= current_block,
    ensures
        unsigned_verdict(
            next_unsigned_at,
            source,
            Call::SubmitUnsigned { amount, block_num },
            current_block,
        ) == Ok::<(), InvalidTransaction>(()),
{
}

/// Queued fees add up: the new queue holds the old queue plus the submitted
/// amount whenever that fits in a `u64`, and never less than either part;
/// only a sum beyond `u64::MAX` is cut to `u64::MAX`.
pub proof fn lemma_queued_fees_add_up(pending: Balance, amount: Balance)
    ensures
        pending + amount <= u64::MAX ==> saturating_add(pending, amount) == pending + amount,
        pending + amount > u64::MAX ==> saturating_add(pending, amount) == u64::MAX,
        saturating_add(pending, amount) >= pending,
        saturating_add(pending, amount) >= amount,
        saturating_add(pending, amount) <= pending + amount,
{
}

/// Two submissions in a row queue the sum of both amounts on top of what was
/// pending, as long as that sum fits in a `u64`.
pub proof fn lemma_two_submissions_accumulate(pending: Balance, first: Balance, second: Balance)
    requires
        pending + first + second <= u64::MAX,
    ensures
        saturating_add(saturating_add(pending, first), second) == pending + first + second,
{
}

/// The transfer carries exactly one asset: `amount` units, counted as the same
/// integer in the wider type, of the configured token.
pub proof fn lemma_transfer_carries_whole_amount(token: MultiLocation, amount: Balance)
    ensures
        transfer_assets(token, amount).len() == 1,
        transfer_assets(token, amount)[0].id == AssetId::Concrete(token),
        transfer_assets(token, amount)[0].fun matches Fungibility::Fungible(n) && n == amount,
{
}

/// Nothing is spent unless the queued fees exceed the transfer minimum and fit
/// in the budget; in particular an empty queue is never spent.
pub proof fn lemma_spend_needs_fees_above_minimum(
    fees_to_send: Balance,
    minimum: Balance,
    budget: Balance,
)
    ensures
        fees_to_send <= minimum ==> spend_outcome(fees_to_send, minimum, budget) is None,
        budget < fees_to_send ==> spend_outcome(fees_to_send, minimum, budget) is None,
        spend_outcome(0, minimum, budget) is None,
        spend_outcome(fees_to_send, minimum, budget) is Some ==> fees_to_send > minimum
            && budget >= fees_to_send,
        fees_to_send > minimum && budget >= fees_to_send ==> spend_outcome(
            fees_to_send,
            minimum,
            budget,
        ) == Some(fees_to_send),
        spend_applies(fees_to_send, minimum, budget) <==> (fees_to_send > minimum && budget
            >= fees_to_send),
{
}

/// Two events that report the same paid fee (or are both unrelated).
pub open spec fn same_paid_fee(a: SystemEvent, b: SystemEvent) -> bool {
    match (a, b) {
        (
            SystemEvent::TransactionFeePaid { who: _, actual_fee: fa, tip: _ },
            SystemEvent::TransactionFeePaid { who: _, actual_fee: fb, tip: _ },
        ) => fa == fb,
        (SystemEvent::Other, SystemEvent::Other) => true,
        _ => false,
    }
}

proof fn lemma_fee_total_ignores_tips(a: Seq<SystemEvent>, b: Seq<SystemEvent>)
    requires
        a.len() == b.len(),
        forall|i: int| 0 <= i < a.len() ==> same_paid_fee(#[trigger] a[i], b[i]),
    ensures
        fee_total(a) == fee_total(b),
    decreases a.len(),
{
    if a.len() > 0 {
        let (a0, b0) = (a.drop_last(), b.drop_last());
        assert forall|i: int| 0 <= i < a0.len() implies same_paid_fee(#[trigger] a0[i], b0[i]) by {
            assert(a0[i] == a[i] && b0[i] == b[i]);
        }
        lemma_fee_total_ignores_tips(a0, b0);
        assert(same_paid_fee(a[a.len() - 1], b[b.len() - 1]));
    }
}

/// Tips and payers do not count: two blocks whose events report the same paid
/// fees, one by one, give the same share, whatever their tips.
pub proof fn lemma_share_ignores_tips(
    config: Config,
    events: Seq<SystemEvent>,
    other: Seq<SystemEvent>,
)
    requires
        events.len() == other.len(),
        forall|i: int| 0 <= i < events.len() ==> same_paid_fee(#[trigger] events[i], other[i]),
    ensures
        block_share(config, events) == block_share(config, other),
{
    lemma_fee_total_ignores_tips(events, other);
}

/// A block with one paid fee `actual_fee` (whatever its tip) adds the
/// configured percentage of `actual_fee` to the local sum.
pub proof fn lemma_share_of_single_fee(
    config: Config,
    who: AccountId,
    actual_fee: Balance,
    tip: Balance,
)
    ensures
        block_share(
            config,
            seq![SystemEvent::TransactionFeePaid { who, actual_fee, tip }],
        ) == percent_of(config.txn_fee_percentage, actual_fee),
{
    let s = seq![SystemEvent::TransactionFeePaid { who, actual_fee, tip }];
    assert(s.drop_last() =~= Seq::<SystemEvent>::empty());
    assert(fee_total(Seq::<SystemEvent>::empty()) == 0);
    assert(s.last() == SystemEvent::TransactionFeePaid { who, actual_fee, tip });
    assert(fee_total(s) == actual_fee);
    lemma_percent_of_at_most(config.txn_fee_percentage, actual_fee);
}

/// Each further paid fee adds its actual fee to the block's total, tips
/// aside; an unrelated event adds nothing.
pub proof fn lemma_fee_total_grows_by_actual_fee(
    events: Seq<SystemEvent>,
    who: AccountId,
    actual_fee: Balance,
    tip: Balance,
)
    ensures
        fee_total(events.push(SystemEvent::TransactionFeePaid { who, actual_fee, tip }))
            == fee_total(events) + actual_fee,
        fee_total(events.push(SystemEvent::Other)) == fee_total(events),
{
    assert(events.push(SystemEvent::TransactionFeePaid { who, actual_fee, tip }).drop_last()
        =~= events);
    assert(events.push(SystemEvent::Other).drop_last() =~= events);
}

} // verus!
