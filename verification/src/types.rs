use vstd::prelude::*;

use crate::arith::Balance;

verus! {

/// Block numbers of the modelled runtime.
pub type BlockNumber = u64;

/// Account identifiers of the modelled runtime.
pub type AccountId = u64;

/// Execution weight, as the plain integer it was in the runtime.
pub type Weight = u64;

/// Priority of a transaction in the pool.
pub type TransactionPriority = u64;

/// Number of blocks for which a transaction stays valid.
pub type TransactionLongevity = u64;

/// The weight that the extrinsics of the pallet report as actually used.
pub const BASE_CREATE_GAS: Weight = 0;

/// The origin of a dispatched call.
#[derive(Clone, Copy, Debug, PartialEq, Eq)]
pub enum RawOrigin {
    /// The system itself.
    Root,
    /// Signed by the given account.
    Signed(AccountId),
    /// Signed by nobody: an unsigned transaction or an inherent.
    Unsigned,
}

/// Events that the pallet deposits.
#[derive(Clone, Copy, Debug, PartialEq, Eq)]
pub enum Event {
    /// Transaction fee sum from the offchain worker has been processed
    /// and stored on chain.
    TxnFeeQueued(Balance),
    /// Transaction fee sum has been withdrawn from the treasury account
    /// to the Sequester account.
    TxnFeeSubsumed(Balance),
    /// Transaction fee has successfully been sent from the chain to Sequester.
    SequesterTransferSuccess(Balance),
}

/// Errors of the pallet.
#[derive(Clone, Copy, Debug, PartialEq, Eq)]
pub enum Error {
    InvalidXCMExtrinsicCall,
    FeeConvertFailed,
    XcmExecutionFailed,
    UnweighableMessage,
}

/// Why a dispatched call failed.
#[derive(Clone, Copy, Debug, PartialEq, Eq)]
pub enum DispatchError {
    /// The origin of the call is not the one that the call demands.
    BadOrigin,
    /// An error of this pallet.
    Pallet(Error),
}

/// Whether the sender of a call pays its fee.
#[derive(Clone, Copy, Debug, PartialEq, Eq)]
pub enum Pays {
    Yes,
    No,
}

/// What a successful dispatch reports back.
#[derive(Clone, Copy, Debug, PartialEq, Eq)]
pub struct PostDispatchInfo {
    pub actual_weight: Option<Weight>,
    pub pays_fee: Pays,
}

/// The dispatchable calls of the pallet.
#[derive(Clone, Copy, Debug, PartialEq, Eq)]
pub enum Call {
    SubmitUnsigned { amount: Balance, block_num: BlockNumber },
    XcmTransferToSequester { amount: Balance },
}

/// Where a transaction that is being validated comes from.
#[derive(Clone, Copy, Debug, PartialEq, Eq)]
pub enum TransactionSource {
    /// Already part of a block.
    InBlock,
    /// Submitted by the local node, for instance by its offchain worker.
    Local,
    /// Received from the network.
    External,
}

/// Reasons for which a transaction is invalid.
#[derive(Clone, Copy, Debug, PartialEq, Eq)]
pub enum InvalidTransaction {
    /// The call of the transaction is not expected.
    Call,
    /// The transaction is outdated.
    Stale,
    /// The transaction is from the future.
    Future,
}

/// What the pool learns of a valid transaction.
#[derive(Clone, Debug, PartialEq, Eq)]
pub struct ValidTransaction {
    pub priority: TransactionPriority,
    pub requires: Vec<Vec<u8>>,
    pub provides: Vec<Vec<u8>>,
    pub longevity: TransactionLongevity,
    pub propagate: bool,
}

/// The verdict of transaction validation.
pub type TransactionValidity = Result<ValidTransaction, InvalidTransaction>;

/// One step of a location inside a consensus system.
#[derive(Clone, Copy, Debug, PartialEq, Eq)]
pub enum Junction {
    Parachain(u32),
    AccountId32 { id: [u8; 32] },
    AccountIndex64 { index: u64 },
    AccountKey20 { key: [u8; 20] },
    PalletInstance(u8),
    GeneralIndex(u128),
}

/// The interior of a location: up to three junctions.
#[derive(Clone, Copy, Debug, PartialEq, Eq)]
pub enum Junctions {
    Here,
    X1(Junction),
    X2(Junction, Junction),
    X3(Junction, Junction, Junction),
}

/// A location relative to the current consensus system.
#[derive(Clone, Copy, Debug, PartialEq, Eq)]
pub struct MultiLocation {
    pub parents: u8,
    pub interior: Junctions,
}

impl MultiLocation {
    /// The location of the current consensus system itself.
    pub open spec fn spec_here() -> MultiLocation {
        MultiLocation { parents: 0, interior: Junctions::Here }
    }

    /// The location of the current consensus system itself.
    pub fn here() -> (r: MultiLocation)
        ensures
            r == MultiLocation::spec_here(),
    {
        MultiLocation { parents: 0, interior: Junctions::Here }
    }
}

/// How an asset is identified.
#[derive(Clone, Copy, Debug, PartialEq, Eq)]
pub enum AssetId {
    Concrete(MultiLocation),
}

/// The amount of a fungible asset.
#[derive(Clone, Copy, Debug, PartialEq, Eq)]
pub enum Fungibility {
    Fungible(u128),
}

/// An amount of an identified asset.
#[derive(Clone, Copy, Debug, PartialEq, Eq)]
pub struct MultiAsset {
    pub id: AssetId,
    pub fun: Fungibility,
}

/// A location, tagged with the message format version.
#[derive(Clone, Copy, Debug, PartialEq, Eq)]
pub enum VersionedMultiLocation {
    V1(MultiLocation),
}

/// A list of assets, tagged with the message format version.
#[derive(Clone, Debug, PartialEq, Eq)]
pub enum VersionedMultiAssets {
    V1(Vec<MultiAsset>),
}

/// Errors of cross-consensus message execution.
#[derive(Clone, Copy, Debug, PartialEq, Eq)]
pub enum XcmError {
    Overflow,
    Unimplemented,
    TooExpensive,
    FailedToTransactAsset,
    NotWithdrawable,
}

/// Errors of sending a cross-consensus message.
#[derive(Clone, Copy, Debug, PartialEq, Eq)]
pub enum SendError {
    CannotReachDestination,
    Transport,
    Unroutable,
}

/// The arguments of one reserve-backed asset transfer to another chain.
#[derive(Clone, Debug, PartialEq, Eq)]
pub struct ReserveTransferAssets {
    pub dest: VersionedMultiLocation,
    pub beneficiary: VersionedMultiLocation,
    pub assets: VersionedMultiAssets,
    pub fee_asset_item: u32,
}

} // verus!
