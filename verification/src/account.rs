use vstd::prelude::*;

use sp_runtime::traits::AccountIdConversion;

use crate::types::AccountId;

verus! {

/// The type identifier that prefixes the seed of every pallet account
/// (`b"modl"`).
pub const PALLET_TYPE_ID: [u8; 4] = [0x6d, 0x6f, 0x64, 0x6c];

/// The identifier of the Sequester pallet account (`b"py/sqstr"`).
pub const SEQUESTER_PALLET_ID: [u8; 8] = [0x70, 0x79, 0x2f, 0x73, 0x71, 0x73, 0x74, 0x72];

/// The value of the first `n` bytes of `bytes` read as a little-endian
/// unsigned integer, with zeros past the end of `bytes`.
pub open spec fn le_value(bytes: Seq<u8>, n: nat) -> int
    decreases n,
{
    if n == 0 || bytes.len() == 0 {
        0
    } else {
        bytes[0] + 256 * le_value(bytes.drop_first(), (n - 1) as nat)
    }
}

/// The seed of a pallet account: the type identifier followed by the pallet
/// identifier.
pub open spec fn seed_bytes(type_id: Seq<u8>, pallet_id: Seq<u8>) -> Seq<u8> {
    type_id + pallet_id
}

/// The account that a pallet identifier stands for when the account type is a
/// `u64`: the first eight bytes of the seed, little-endian.
pub open spec fn pallet_account(pallet_id: Seq<u8>) -> int {
    le_value(seed_bytes(PALLET_TYPE_ID@, pallet_id), 8)
}

/// Calls `frame_support::PalletId(pallet_id).into_account_truncating()` (the
/// blanket `AccountIdConversion` of `sp_runtime`) for a `u64` account.
///
/// Contract, as the two sources show it: the seed is the SCALE encoding of
/// `(PalletId::TYPE_ID, PalletId(pallet_id), ())`, that is `b"modl"` followed
/// by the eight identifier bytes; the account is decoded from the seed
/// followed by endless zeros, so a `u64` account is the first eight bytes of
/// the seed, little-endian.
#[verifier::external_body]
pub(crate) fn pallet_id_into_account(pallet_id: [u8; 8]) -> (r: AccountId)
    ensures
        r == pallet_account(pallet_id@),
{
    frame_support::PalletId(pallet_id).into_account_truncating()
}

} // verus!
