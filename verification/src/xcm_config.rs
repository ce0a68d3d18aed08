use vstd::prelude::*;

use crate::types::{MultiAsset, MultiLocation, RawOrigin, SendError, Weight, XcmError};

verus! {

/// An origin converter that maps every origin to the local location.
pub struct ConvertOriginToLocal;

impl ConvertOriginToLocal {
    /// Every origin is accepted, as the local location.
    pub fn try_origin(origin: RawOrigin) -> (r: Result<MultiLocation, RawOrigin>)
        ensures
            r == Ok::<MultiLocation, RawOrigin>(MultiLocation::spec_here()),
    {
        Ok(MultiLocation::here())
    }

    /// An origin that `try_origin` accepts.
    pub fn successful_origin() -> (r: RawOrigin)
        ensures
            r == RawOrigin::Root,
    {
        RawOrigin::Root
    }
}

/// A location inverter that inverts every location to the local one.
pub struct InvertNothing;

impl InvertNothing {
    /// Every location inverts to the local location.
    pub fn invert_location(location: &MultiLocation) -> (r: Result<MultiLocation, ()>)
        ensures
            r == Ok::<MultiLocation, ()>(MultiLocation::spec_here()),
    {
        Ok(MultiLocation::here())
    }
}

/// A message router that accepts every message and sends nothing.
pub struct DoNothingRouter;

impl DoNothingRouter {
    /// Every message is reported as sent.
    pub fn send_xcm(dest: MultiLocation, message: &Vec<u8>) -> (r: Result<(), SendError>)
        ensures
            r is Ok,
    {
        Ok(())
    }
}

/// An asset transactor that moves no assets.
pub struct DummyAssetTransactor;

impl DummyAssetTransactor {
    /// Every deposit is reported as done.
    pub fn deposit_asset(what: &MultiAsset, who: &MultiLocation) -> (r: Result<(), XcmError>)
        ensures
            r is Ok,
    {
        Ok(())
    }

    /// Every withdrawal succeeds and yields no assets.
    pub fn withdraw_asset(what: &MultiAsset, who: &MultiLocation) -> (r: Result<
        Vec<MultiAsset>,
        XcmError,
    >)
        ensures
            r matches Ok(assets) && assets@.len() == 0,
    {
        Ok(Vec::new())
    }
}

/// A weight trader that charges nothing.
pub struct DummyWeightTrader;

impl DummyWeightTrader {
    pub fn new() -> (r: DummyWeightTrader)
        ensures
            r == DummyWeightTrader,
    {
        DummyWeightTrader
    }

    /// Weight is bought for nothing: no assets are handed back.
    pub fn buy_weight(&mut self, weight: Weight, payment: Vec<MultiAsset>) -> (r: Result<
        Vec<MultiAsset>,
        XcmError,
    >)
        ensures
            r matches Ok(assets) && assets@.len() == 0,
    {
        Ok(Vec::new())
    }
}

/// The executor configuration of the test runtime: `DoNothingRouter` sends,
/// `DummyAssetTransactor` moves assets, `InvertNothing` inverts locations and
/// `DummyWeightTrader` sells weight.
pub struct XcmConfig;

/// The converter of the test runtime from accounts to locations.
pub struct SequesterAccountIdToMultiLocation;

} // verus!
