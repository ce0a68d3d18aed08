use vstd::prelude::*;

verus! {

/// The balance type of the modelled runtime.
pub type Balance = u64;

/// The number of parts per hundred that a `Percent` holds once built from
/// `parts`: `Percent::from_parts` saturates at one hundred.
pub open spec fn percent_parts(parts: u8) -> int {
    if parts > 100 { 100 } else { parts as int }
}

/// `percent * amount` for a `Percent` of `parts` parts per hundred: the exact
/// product `amount * parts / 100`, rounded to the nearest integer, a half
/// rounded down.
pub open spec fn percent_of(parts: u8, amount: u64) -> int {
    let t = amount * percent_parts(parts);
    t / 100 + if t % 100 > 50 { 1int } else { 0int }
}

/// Calls `sp_runtime::Percent::from_parts(parts) * amount` (`Percent` of
/// `sp_arithmetic`, as `sp_runtime` re-exports it).
///
/// Contract: the result is `percent_of(parts, amount)`, the rounding that the
/// source of `sp_arithmetic` implements for `Mul<N> for Percent`
/// (`Rounding::NearestPrefDown` over the remainder `amount % 100`).
#[verifier::external_body]
fn percent_mul(parts: u8, amount: u64) -> (r: u64)
    ensures
        r == percent_of(parts, amount),
{
    sp_runtime::Percent::from_parts(parts) * amount
}

/// The share of `amount` that a fee percentage of `parts` parts per hundred
/// selects: never more than `amount` itself.
pub fn fee_share(parts: u8, amount: Balance) -> (r: Balance)
    ensures
        r == percent_of(parts, amount),
        r <= amount,
{
    proof { lemma_percent_of_at_most(parts, amount); }
    percent_mul(parts, amount)
}

/// A percentage of an amount never exceeds the amount.
pub proof fn lemma_percent_of_at_most(parts: u8, amount: u64)
    ensures
        0 <= percent_of(parts, amount) <= amount,
{
    let p = percent_parts(parts);
    let t = amount * p;
    assert(0 <= t <= amount * 100) by (nonlinear_arith)
        requires 0 <= p <= 100, t == amount * p, 0 <= amount;
    if p == 100 {
        assert(t == amount * 100);
        assert(t % 100 == 0 && t / 100 == amount) by (nonlinear_arith)
            requires t == amount * 100;
    } else {
        assert(t / 100 < amount || (t / 100 == amount - 1 || t % 100 <= 50)) by (nonlinear_arith)
            requires 0 <= p < 100, t == amount * p, 0 <= amount;
        assert(t / 100 + (if t % 100 > 50 { 1int } else { 0int }) <= amount) by (nonlinear_arith)
            requires 0 <= p < 100, t == amount * p, 0 <= amount;
    }
}

} // verus!
