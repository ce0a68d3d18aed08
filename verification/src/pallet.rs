use vstd::prelude::*;

use crate::account::{pallet_account, pallet_id_into_account, SEQUESTER_PALLET_ID};
use crate::arith::Balance;
use crate::types::{
    AccountId, AssetId, BlockNumber, Call, DispatchError, Error, Event, Fungibility, InvalidTransaction,
    MultiAsset, MultiLocation, Pays, PostDispatchInfo, RawOrigin, ReserveTransferAssets,
    TransactionPriority, TransactionSource, TransactionValidity, ValidTransaction,
    VersionedMultiAssets, VersionedMultiLocation, Weight, BASE_CREATE_GAS,
};

verus! {

/// `a + b`, saturating at `u64::MAX`.
pub open spec fn saturating_add(a: u64, b: u64) -> u64 {
    if a + b > u64::MAX {
        u64::MAX
    } else {
        (a + b) as u64
    }
}

/// The constants that a runtime configures the pallet with.
#[derive(Clone, Copy, Debug, PartialEq, Eq)]
pub struct Config {
    /// The least amount that is worth a transfer to Sequester.
    pub sequester_transfer_minimum: Balance,
    /// The priority of the unsigned transactions that the pallet submits.
    pub unsigned_priority: TransactionPriority,
    /// Interval, in blocks, at which the pending fees are queued on chain.
    pub on_chain_update_interval: BlockNumber,
    /// Parts per hundred of the transaction fees that go to Sequester
    /// (`Percent::from_parts` of it; above one hundred it means one hundred).
    pub txn_fee_percentage: u8,
    /// Where the funds go.
    pub sequester_multi_location: MultiLocation,
    /// The asset that is sent.
    pub token_to_send_multi_location: MultiLocation,
    /// The weight that `spend_funds` adds to the treasury's total.
    pub spend_funds_weight: Weight,
}

/// The on-chain storage of the pallet, with the events it has deposited.
#[derive(Clone, Debug, PartialEq, Eq)]
pub struct Pallet {
    /// The next block from which an unsigned submission is considered valid.
    pub next_unsigned_at: BlockNumber,
    /// Fees queued for the next transfer to Sequester.
    pub fees_to_send: Balance,
    /// The events deposited so far, oldest first.
    pub events: Vec<Event>,
}

/// What both extrinsics report when they succeed: no weight, no fee.
pub open spec fn free_dispatch() -> PostDispatchInfo {
    PostDispatchInfo { actual_weight: Some(BASE_CREATE_GAS), pays_fee: Pays::No }
}

/// Whether an unsigned transaction from `source` may be accepted at all.
pub open spec fn source_is_local(source: TransactionSource) -> bool {
    source == TransactionSource::Local || source == TransactionSource::InBlock
}

/// The verdict on an unsigned `call` from `source`, when the next accepted
/// block is `next_unsigned_at` and the chain is at `current_block`.
pub open spec fn unsigned_verdict(
    next_unsigned_at: BlockNumber,
    source: TransactionSource,
    call: Call,
    current_block: BlockNumber,
) -> Result<(), InvalidTransaction> {
    match call {
        Call::SubmitUnsigned { amount, block_num } => {
            if !source_is_local(source) {
                Err(InvalidTransaction::Call)
            } else if next_unsigned_at > block_num {
                Err(InvalidTransaction::Stale)
            } else if current_block < block_num {
                Err(InvalidTransaction::Future)
            } else {
                Ok(())
            }
        },
        Call::XcmTransferToSequester { .. } => Err(InvalidTransaction::Call),
    }
}

/// Whether `spend_funds` moves the queued fees out of the treasury.
pub open spec fn spend_applies(fees_to_send: Balance, minimum: Balance, budget: Balance) -> bool {
    fees_to_send > minimum && budget >= fees_to_send
}

/// The amount that `spend_funds` deposits into the Sequester account.
pub open spec fn spend_outcome(fees_to_send: Balance, minimum: Balance, budget: Balance) -> Option<
    Balance,
> {
    if spend_applies(fees_to_send, minimum, budget) {
        Some(fees_to_send)
    } else {
        None
    }
}

/// The asset list of a transfer of `amount` units of `token`.
pub open spec fn transfer_assets(token: MultiLocation, amount: Balance) -> Seq<MultiAsset> {
    seq![MultiAsset { id: AssetId::Concrete(token), fun: Fungibility::Fungible(amount as u128) }]
}

/// Calls `sp_runtime::transaction_validity::ValidTransaction::with_tag_prefix(prefix)`
/// followed by `.priority(priority).propagate(propagate)`, and converts the
/// built `ValidTransaction` field by field.
///
/// Contract, as the source of `sp_runtime` shows it: the builder starts from
/// `ValidTransaction::default()` (no required or provided tags, longevity
/// `u64::MAX`); the prefix is only used for tags added later, so it does not
/// show in the result.
#[verifier::external_body]
fn build_valid_transaction(prefix: &'static str, priority: TransactionPriority, propagate: bool) -> (r:
    ValidTransaction)
    ensures
        r.priority == priority,
        r.requires@.len() == 0,
        r.provides@.len() == 0,
        r.longevity == u64::MAX,
        r.propagate == propagate,
{
    let v: sp_runtime::transaction_validity::ValidTransaction =
        sp_runtime::transaction_validity::ValidTransaction::with_tag_prefix(prefix)
            .priority(priority)
            .propagate(propagate)
            .into();
    ValidTransaction {
        priority: v.priority,
        requires: v.requires,
        provides: v.provides,
        longevity: v.longevity,
        propagate: v.propagate,
    }
}

/// The default of `next_unsigned_at`: block zero.
pub fn default_next_unsigned() -> (r: BlockNumber)
    ensures
        r == 0,
{
    0
}

impl Pallet {
    /// The pallet's storage at genesis.
    pub fn new() -> (p: Pallet)
        ensures
            p.next_unsigned_at == 0,
            p.fees_to_send == 0,
            p.events@ == Seq::<Event>::empty(),
    {
        Pallet { next_unsigned_at: default_next_unsigned(), fees_to_send: 0, events: Vec::new() }
    }

    /// The next block from which an unsigned submission is valid.
    pub fn next_unsigned_at(&self) -> (r: BlockNumber)
        ensures
            r == self.next_unsigned_at,
    {
        self.next_unsigned_at
    }

    /// The fees queued for the next transfer to Sequester.
    pub fn fees_to_send(&self) -> (r: Balance)
        ensures
            r == self.fees_to_send,
    {
        self.fees_to_send
    }

    /// Appends `event` to the deposited events.
    pub fn deposit_event(&mut self, event: Event)
        ensures
            final(self).events@ == old(self).events@.push(event),
            final(self).next_unsigned_at == old(self).next_unsigned_at,
            final(self).fees_to_send == old(self).fees_to_send,
    {
        self.events.push(event);
    }

    /// The account of the Sequester pallet. Treasury funds that will be sent
    /// to Sequester are held in it until the transfer.
    pub fn get_sequester_account_id() -> (r: AccountId)
        ensures
            r == pallet_account(SEQUESTER_PALLET_ID@),
    {
        pallet_id_into_account(SEQUESTER_PALLET_ID)
    }

    /// The unsigned extrinsic: queues `amount` for the next transfer, rejects
    /// further unsigned submissions until `block_num` plus the update
    /// interval, and deposits `TxnFeeQueued`. Any signed or root origin is
    /// refused with `BadOrigin`, and then nothing changes.
    pub fn submit_unsigned(
        &mut self,
        config: &Config,
        origin: RawOrigin,
        amount: Balance,
        block_num: BlockNumber,
    ) -> (r: Result<PostDispatchInfo, DispatchError>)
        requires
            origin == RawOrigin::Unsigned ==> block_num + config.on_chain_update_interval <= u64::MAX,
        ensures
            origin == RawOrigin::Unsigned ==> {
                &&& r == Ok::<PostDispatchInfo, DispatchError>(free_dispatch())
                &&& final(self).next_unsigned_at == block_num + config.on_chain_update_interval
                &&& final(self).fees_to_send == saturating_add(old(self).fees_to_send, amount)
                &&& old(self).fees_to_send + amount <= u64::MAX ==> final(self).fees_to_send
                    == old(self).fees_to_send + amount
                &&& old(self).fees_to_send + amount > u64::MAX ==> final(self).fees_to_send
                    == u64::MAX
                &&& final(self).events@ == old(self).events@.push(Event::TxnFeeQueued(amount))
            },
            origin != RawOrigin::Unsigned ==> {
                &&& r == Err::<PostDispatchInfo, DispatchError>(DispatchError::BadOrigin)
                &&& *final(self) == *old(self)
            },
    {
        match origin {
            RawOrigin::Unsigned => {},
            _ => {
                return Err(DispatchError::BadOrigin);
            },
        }
        self.next_unsigned_at = block_num + config.on_chain_update_interval;
        let pending_fees = self.fees_to_send;
        self.fees_to_send = pending_fees.saturating_add(amount);
        self.deposit_event(Event::TxnFeeQueued(amount));
        Ok(PostDispatchInfo { actual_weight: Some(BASE_CREATE_GAS), pays_fee: Pays::No })
    }

    /// Validation of unsigned transactions: only `submit_unsigned` from the
    /// local node (or already in a block) is accepted, and only for a block
    /// between `next_unsigned_at` and the current block, so that one
    /// submission passes per update interval.
    pub fn validate_unsigned(
        &self,
        config: &Config,
        source: TransactionSource,
        call: &Call,
        current_block: BlockNumber,
    ) -> (r: TransactionValidity)
        ensures
            r is Ok <==> unsigned_verdict(self.next_unsigned_at, source, *call, current_block) is Ok,
            r matches Err(e) ==> unsigned_verdict(self.next_unsigned_at, source, *call, current_block)
                == Err::<(), InvalidTransaction>(e),
            (*call matches Call::SubmitUnsigned { amount, block_num } && (source
                == TransactionSource::Local || source == TransactionSource::InBlock)
                && self.next_unsigned_at <= block_num && block_num <= current_block) ==> r is Ok,
            r is Ok ==> (*call matches Call::SubmitUnsigned { amount, block_num } && (source
                == TransactionSource::Local || source == TransactionSource::InBlock)
                && self.next_unsigned_at <= block_num && block_num <= current_block),
            r matches Ok(v) ==> {
                &&& v.priority == config.unsigned_priority
                &&& v.requires@.len() == 0
                &&& v.provides@.len() == 0
                &&& v.longevity == u64::MAX
                &&& !v.propagate
            },
    {
        match call {
            Call::SubmitUnsigned { amount: _, block_num } => {
                match source {
                    TransactionSource::Local | TransactionSource::InBlock => {},
                    TransactionSource::External => {
                        return Err(InvalidTransaction::Call);
                    },
                }
                if self.next_unsigned_at > *block_num {
                    return Err(InvalidTransaction::Stale);
                }
                if current_block < *block_num {
                    return Err(InvalidTransaction::Future);
                }
                // Not propagated: this can never be validated at a remote node.
                Ok(build_valid_transaction("Donations", config.unsigned_priority, false))
            },
            Call::XcmTransferToSequester { .. } => Err(InvalidTransaction::Call),
        }
    }

    /// The treasury's spend callback. When the queued fees exceed the transfer
    /// minimum and fit in the remaining budget, they are taken out of the
    /// budget, the queue is emptied, `TxnFeeSubsumed` is deposited, and the
    /// amount to deposit into the Sequester account is returned. The weight of
    /// the callback is added to `total_weight` in every case.
    pub fn spend_funds(
        &mut self,
        config: &Config,
        budget_remaining: &mut Balance,
        total_weight: &mut Weight,
    ) -> (deposit: Option<Balance>)
        requires
            *old(total_weight) + config.spend_funds_weight <= u64::MAX,
        ensures
            deposit == spend_outcome(
                old(self).fees_to_send,
                config.sequester_transfer_minimum,
                *old(budget_remaining),
            ),
            *final(total_weight) == *old(total_weight) + config.spend_funds_weight,
            final(self).next_unsigned_at == old(self).next_unsigned_at,
            spend_applies(
                old(self).fees_to_send,
                config.sequester_transfer_minimum,
                *old(budget_remaining),
            ) ==> {
                &&& *final(budget_remaining) == *old(budget_remaining) - old(self).fees_to_send
                &&& final(self).fees_to_send == 0
                &&& final(self).events@ == old(self).events@.push(
                    Event::TxnFeeSubsumed(old(self).fees_to_send),
                )
            },
            !spend_applies(
                old(self).fees_to_send,
                config.sequester_transfer_minimum,
                *old(budget_remaining),
            ) ==> {
                &&& *final(budget_remaining) == *old(budget_remaining)
                &&& *final(self) == *old(self)
            },
            old(self).fees_to_send <= config.sequester_transfer_minimum ==> {
                &&& deposit is None
                &&& *final(budget_remaining) == *old(budget_remaining)
                &&& *final(self) == *old(self)
            },
            *old(budget_remaining) < old(self).fees_to_send ==> {
                &&& deposit is None
                &&& *final(budget_remaining) == *old(budget_remaining)
                &&& *final(self) == *old(self)
            },
            old(self).fees_to_send > config.sequester_transfer_minimum && *old(budget_remaining)
                >= old(self).fees_to_send ==> deposit == Some(old(self).fees_to_send),
    {
        let fees_to_send = self.fees_to_send;
        let transfer_fee = config.sequester_transfer_minimum;
        let mut deposit: Option<Balance> = None;
        if fees_to_send > transfer_fee && *budget_remaining >= fees_to_send {
            *budget_remaining = *budget_remaining - fees_to_send;
            self.fees_to_send = 0;
            self.deposit_event(Event::TxnFeeSubsumed(fees_to_send));
            deposit = Some(fees_to_send);
        }
        *total_weight = *total_weight + config.spend_funds_weight;
        deposit
    }

    /// The signed extrinsic that sends `amount` to Sequester: checks the
    /// origin and the transfer minimum, and builds the reserve transfer of
    /// `amount` units of the configured token to the Sequester location, for
    /// `beneficiary` (the location that the runtime's converter gives for the
    /// Sequester account).
    pub fn xcm_transfer_to_sequester(
        config: &Config,
        origin: RawOrigin,
        amount: Balance,
        beneficiary: MultiLocation,
    ) -> (r: Result<ReserveTransferAssets, DispatchError>)
        ensures
            !(origin is Signed) ==> r == Err::<ReserveTransferAssets, DispatchError>(
                DispatchError::BadOrigin,
            ),
            origin is Signed && amount < config.sequester_transfer_minimum ==> r == Err::<
                ReserveTransferAssets,
                DispatchError,
            >(DispatchError::Pallet(Error::InvalidXCMExtrinsicCall)),
            origin is Signed && amount >= config.sequester_transfer_minimum ==> r is Ok,
            r matches Ok(t) ==> {
                &&& t.dest == VersionedMultiLocation::V1(config.sequester_multi_location)
                &&& t.beneficiary == VersionedMultiLocation::V1(beneficiary)
                &&& t.fee_asset_item == 0
                &&& t.assets matches VersionedMultiAssets::V1(a) && a@ == transfer_assets(
                    config.token_to_send_multi_location,
                    amount,
                )
                &&& t.assets matches VersionedMultiAssets::V1(a) && (a@.len() == 1
                    && a@[0].id == AssetId::Concrete(config.token_to_send_multi_location)
                    && (a@[0].fun matches Fungibility::Fungible(n) && n == amount))
            },
    {
        match origin {
            RawOrigin::Signed(_) => {},
            _ => {
                return Err(DispatchError::BadOrigin);
            },
        }
        let fee = config.sequester_transfer_minimum;
        if amount < fee {
            return Err(DispatchError::Pallet(Error::InvalidXCMExtrinsicCall));
        }
        let send_amount: u128 = amount as u128;
        let dest = VersionedMultiLocation::V1(config.sequester_multi_location);
        let beneficiary = VersionedMultiLocation::V1(beneficiary);
        let mut assets: Vec<MultiAsset> = Vec::new();
        assets.push(
            MultiAsset {
                id: AssetId::Concrete(config.token_to_send_multi_location),
                fun: Fungibility::Fungible(send_amount),
            },
        );
        assert(assets@ =~= transfer_assets(config.token_to_send_multi_location, amount));
        Ok(
            ReserveTransferAssets {
                dest,
                beneficiary,
                assets: VersionedMultiAssets::V1(assets),
                fee_asset_item: 0,
            },
        )
    }

    /// The transfer that follows a successful `spend_funds`, once its deposit
    /// has been made: the Sequester account itself sends its whole free
    /// balance `sequester_balance` to Sequester.
    pub fn sequester_transfer_after_spend(
        config: &Config,
        sequester_balance: Balance,
        beneficiary: MultiLocation,
    ) -> (r: Result<ReserveTransferAssets, DispatchError>)
        ensures
            sequester_balance < config.sequester_transfer_minimum ==> r == Err::<
                ReserveTransferAssets,
                DispatchError,
            >(DispatchError::Pallet(Error::InvalidXCMExtrinsicCall)),
            sequester_balance >= config.sequester_transfer_minimum ==> r is Ok,
            r matches Ok(t) ==> {
                &&& t.dest == VersionedMultiLocation::V1(config.sequester_multi_location)
                &&& t.beneficiary == VersionedMultiLocation::V1(beneficiary)
                &&& t.fee_asset_item == 0
                &&& t.assets matches VersionedMultiAssets::V1(a) && a@ == transfer_assets(
                    config.token_to_send_multi_location,
                    sequester_balance,
                )
                &&& t.assets matches VersionedMultiAssets::V1(a) && (a@.len() == 1
                    && a@[0].id == AssetId::Concrete(config.token_to_send_multi_location)
                    && (a@[0].fun matches Fungibility::Fungible(n) && n == sequester_balance))
            },
    {
        let sequester_acc = Self::get_sequester_account_id();
        Self::xcm_transfer_to_sequester(
            config,
            RawOrigin::Signed(sequester_acc),
            sequester_balance,
            beneficiary,
        )
    }

    /// Completes `xcm_transfer_to_sequester` once the reserve transfer has
    /// been attempted: a successful transfer deposits
    /// `SequesterTransferSuccess`, a failed one changes nothing. Either way the
    /// extrinsic itself succeeds, with no weight and no fee.
    pub fn record_xcm_transfer(
        &mut self,
        amount: Balance,
        outcome: Result<(), DispatchError>,
    ) -> (r: PostDispatchInfo)
        ensures
            r == free_dispatch(),
            outcome is Ok ==> final(self).events@ == old(self).events@.push(
                Event::SequesterTransferSuccess(amount),
            ),
            outcome is Ok ==> final(self).next_unsigned_at == old(self).next_unsigned_at
                && final(self).fees_to_send == old(self).fees_to_send,
            outcome is Err ==> *final(self) == *old(self),
    {
        match outcome {
            Ok(()) => self.deposit_event(Event::SequesterTransferSuccess(amount)),
            Err(_) => {},
        }
        PostDispatchInfo { actual_weight: Some(BASE_CREATE_GAS), pays_fee: Pays::No }
    }
}

} // verus!
