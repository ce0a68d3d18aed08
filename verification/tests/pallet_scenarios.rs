use donations::offchain::{OffchainValue, SystemEvent};
use donations::pallet::{Config, Pallet};
use donations::types::{
    Call, DispatchError, Event, Junction, Junctions, MultiLocation, Pays, PostDispatchInfo,
    RawOrigin,
};

const TXN_FEE: u64 = 725000010;
const SEND_INTERVAL: u64 = 9;
const SEQUESTER_TRANSFER_MINIMUM: u64 = 10000000;
const FROM_ACCOUNT: u64 = 1;

fn test_config() -> Config {
    Config {
        sequester_transfer_minimum: SEQUESTER_TRANSFER_MINIMUM,
        unsigned_priority: 99999999,
        on_chain_update_interval: SEND_INTERVAL,
        txn_fee_percentage: 10,
        sequester_multi_location: MultiLocation {
            parents: 1,
            interior: Junctions::X1(Junction::Parachain(9999)),
        },
        token_to_send_multi_location: MultiLocation {
            parents: 1,
            interior: Junctions::X1(Junction::Parachain(1000)),
        },
        spend_funds_weight: 0,
    }
}

/// The test runtime as far as the pallet sees it: the block number, the
/// pallet's storage, the node-local running sum, the events in storage (never
/// cleared between blocks), the treasury pot, the
/// Sequester account's balance and the unsigned calls handed to the pool.
struct TestChain {
    block: u64,
    pallet: Pallet,
    offchain: OffchainValue,
    events: Vec<SystemEvent>,
    pot: u64,
    sequester_balance: u64,
    pool: Vec<Call>,
}

fn new_chain() -> TestChain {
    TestChain {
        block: 0,
        pallet: Pallet::new(),
        offchain: OffchainValue::Absent,
        events: Vec::new(),
        pot: 0,
        sequester_balance: 0,
        pool: Vec::new(),
    }
}

const SPEND_PERIOD: u64 = 2;

fn run_to_block(chain: &mut TestChain, n: u64) {
    let config = test_config();
    while chain.block < n {
        if let Some(call) =
            Pallet::offchain_worker(&config, chain.block, &chain.events, &mut chain.offchain)
        {
            // The test pool accepts every submission.
            chain.pool.push(call);
            Pallet::record_submission(&mut chain.offchain, true);
        }
        if chain.block % SPEND_PERIOD == 0 {
            let mut budget = chain.pot;
            let mut weight = 0u64;
            if let Some(amount) = chain.pallet.spend_funds(&config, &mut budget, &mut weight) {
                chain.sequester_balance += amount;
                chain.pot -= amount;
                let request = Pallet::sequester_transfer_after_spend(
                    &config,
                    chain.sequester_balance,
                    MultiLocation::here(),
                );
                let outcome = match request {
                    Ok(_) => Ok(()),
                    Err(e) => Err(e),
                };
                chain.pallet.record_xcm_transfer(chain.sequester_balance, outcome);
            }
        }
        chain.block += 1;
    }
}

fn fee_paid_event() -> SystemEvent {
    SystemEvent::TransactionFeePaid { who: FROM_ACCOUNT, actual_fee: TXN_FEE, tip: 0 }
}

#[test]
fn test_transfer_txn_updates_offchain_variable() {
    let mut chain = new_chain();
    chain.events.push(fee_paid_event());

    run_to_block(&mut chain, 2);

    // 10% of the fee
    let fees_to_send: u64 = 72500001;
    assert_eq!(chain.offchain, OffchainValue::Stored(fees_to_send));

    run_to_block(&mut chain, 10);

    // reset to zero after the send interval
    assert_eq!(chain.offchain, OffchainValue::Stored(0));
}

#[test]
fn test_submit_unsigned_updates_on_chain_vars() {
    let config = test_config();
    let mut chain = new_chain();
    assert_eq!(chain.pallet.next_unsigned_at(), 0);
    assert_eq!(chain.pallet.fees_to_send(), 0);

    let collected_fees: u64 = 72500001;
    assert!(chain.pallet.submit_unsigned(&config, RawOrigin::Unsigned, collected_fees, 1).is_ok());

    run_to_block(&mut chain, 2);

    assert_eq!(chain.pallet.next_unsigned_at(), 1 + SEND_INTERVAL);
    assert_eq!(chain.pallet.fees_to_send(), collected_fees);

    chain.pot = collected_fees;
    chain.sequester_balance = 0;
    assert_eq!(chain.pot, collected_fees);
    assert_eq!(chain.sequester_balance, 0);

    run_to_block(&mut chain, 4);

    assert_eq!(chain.pot, 0);
    assert_eq!(chain.sequester_balance, collected_fees);
    assert_eq!(chain.pallet.fees_to_send(), 0);
}

#[test]
fn test_invalid_unsigned_origin() {
    let config = test_config();
    let mut pallet = Pallet::new();
    assert_eq!(
        pallet.submit_unsigned(&config, RawOrigin::Signed(1), TXN_FEE, 1),
        Err(DispatchError::BadOrigin)
    );
    assert_eq!(
        pallet.submit_unsigned(&config, RawOrigin::Root, TXN_FEE, 1),
        Err(DispatchError::BadOrigin)
    );
    assert_eq!(pallet, Pallet::new());
}

#[test]
fn test_send_zero_doesnt_fail() {
    let mut chain = new_chain();
    assert_eq!(chain.offchain, OffchainValue::Absent);

    run_to_block(&mut chain, 2);
    assert_eq!(chain.offchain, OffchainValue::Stored(0));

    run_to_block(&mut chain, 10);
    assert_eq!(chain.offchain, OffchainValue::Stored(0));
}

#[test]
fn test_multiple_txns_single_block() {
    let mut chain = new_chain();
    chain.events.push(fee_paid_event());
    chain.events.push(fee_paid_event());

    run_to_block(&mut chain, 2);

    let fees_to_send: u64 = 72500001;
    assert_eq!(chain.offchain, OffchainValue::Stored(2 * fees_to_send));

    run_to_block(&mut chain, 10);
    assert_eq!(chain.offchain, OffchainValue::Stored(0));
}

#[test]
fn queued_call_carries_the_whole_interval() {
    let mut chain = new_chain();
    chain.events.push(fee_paid_event());
    run_to_block(&mut chain, 10);
    // block 0 queues one share; blocks 1 to 9 queue nine more
    assert_eq!(
        chain.pool,
        vec![
            Call::SubmitUnsigned { amount: 72500001, block_num: 0 },
            Call::SubmitUnsigned { amount: 9 * 72500001, block_num: 9 },
        ]
    );
}

#[test]
fn benchmark_submit_unsigned_deposits_event() {
    let config = test_config();
    let mut pallet = Pallet::new();
    let amount: u64 = 100_000_000;
    let r = pallet.submit_unsigned(&config, RawOrigin::Unsigned, amount, 0);
    assert_eq!(r, Ok(PostDispatchInfo { actual_weight: Some(0), pays_fee: Pays::No }));
    assert_eq!(pallet.events.last(), Some(&Event::TxnFeeQueued(amount)));
    assert_eq!(pallet.next_unsigned_at, SEND_INTERVAL);
}

#[test]
fn benchmark_xcm_transfer_deposits_event() {
    let config = test_config();
    let mut pallet = Pallet::new();
    let amount: u64 = 100_000_000;
    let request =
        Pallet::xcm_transfer_to_sequester(&config, RawOrigin::Signed(7), amount, MultiLocation::here());
    assert!(request.is_ok());
    let post = pallet.record_xcm_transfer(amount, Ok(()));
    assert_eq!(post, PostDispatchInfo { actual_weight: Some(0), pays_fee: Pays::No });
    assert_eq!(pallet.events.last(), Some(&Event::SequesterTransferSuccess(amount)));
}

#[test]
fn benchmark_spend_funds_below_minimum() {
    let config = test_config();
    let mut pallet = Pallet::new();
    pallet.fees_to_send = 100_000;
    let mut budget: u64 = 100_000_000;
    let mut weight: u64 = 0;
    assert_eq!(pallet.spend_funds(&config, &mut budget, &mut weight), None);
    assert_eq!(budget, 100_000_000);
    assert_eq!(pallet.fees_to_send, 100_000);
}
