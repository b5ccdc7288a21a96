//! Data model of a two-party escrow agreement: the immutable terms, the
//! per-party stake and cancellation records, and the well-formedness
//! invariant tying the stake amounts to the agreed price and percentages.

use vstd::prelude::*;
use vstd::arithmetic::div_mod::{
    lemma_div_is_ordered, lemma_div_multiples_vanish, lemma_fundamental_div_mod,
    lemma_hoist_over_denominator,
};
use vstd::arithmetic::mul::{lemma_mul_inequality, lemma_mul_is_commutative};

verus! {

/// Immutable terms of one escrow agreement, fixed at creation.
/// `state_percent` is the buyer's stake percentage of the sale price;
/// `seller_percent` is the seller's.
#[derive(Debug)]
pub struct State {
    pub buyer: String,
    pub seller: String,
    pub sale_price: u128,
    pub state_percent: u64,
    pub seller_percent: u64,
    pub title: String,
    pub description: String,
    pub is_active: bool,
    pub is_cancelled: bool,
}

/// One party's stake: whether a stake is currently posted, and the amount
/// owed to or held for that party, computed once at creation.
#[derive(Debug, Clone, Copy, PartialEq, Eq, Structural)]
pub struct StakeRecord {
    pub posted: bool,
    pub amount: u128,
}

/// One party's cancellation assertion; an absent record reads as `false`.
#[derive(Debug, Clone, Copy, PartialEq, Eq, Structural)]
pub struct CancelRecord {
    pub asserted: bool,
}

/// The full mutable context of one agreement: the terms plus both parties'
/// stake and cancellation records. Every transition takes this explicitly.
#[derive(Debug)]
pub struct Escrow {
    pub state: State,
    pub buyer_stake: StakeRecord,
    pub seller_stake: StakeRecord,
    pub buyer_cancel: CancelRecord,
    pub seller_cancel: CancelRecord,
}

/// The stake owed for a sale price at a given percentage: truncating
/// integer division by one hundred.
pub open spec fn stake_of(price: int, percent: int) -> int {
    price * percent / 100
}

impl Escrow {
    /// Well-formedness: the two parties are distinct, the percentages are
    /// within a hundred, and each recorded stake amount is exactly the one
    /// derived from the terms.
    pub open spec fn wf(self) -> bool {
        &&& self.state.buyer@ != self.state.seller@
        &&& self.state.state_percent <= 100
        &&& self.state.seller_percent <= 100
        &&& self.buyer_stake.amount
            == stake_of(self.state.sale_price as int, self.state.state_percent as int)
        &&& self.seller_stake.amount
            == stake_of(self.state.sale_price as int, self.state.seller_percent as int)
    }
}

/// A stake never exceeds the sale price when the percentage is at most a
/// hundred, and is never negative.
pub proof fn lemma_stake_of_bounds(price: int, percent: int)
    requires
        0 <= price,
        0 <= percent <= 100,
    ensures
        0 <= stake_of(price, percent) <= price,
{
    lemma_mul_inequality(percent, 100, price);
    lemma_mul_is_commutative(price, percent);
    lemma_mul_is_commutative(price, 100);
    lemma_div_is_ordered(0, price * percent, 100);
    lemma_div_is_ordered(price * percent, price * 100, 100);
    lemma_div_multiples_vanish(price, 100);
}

/// Computes `price * percent / 100` exactly, without the product ever
/// leaving `u128`: the price is split at the hundreds boundary first.
pub fn stake_amount(price: u128, percent: u64) -> (r: u128)
    requires
        percent <= 100,
    ensures
        r == stake_of(price as int, percent as int),
{
    let q: u128 = price / 100;
    let rem: u128 = price % 100;
    let p: u128 = percent as u128;
    proof {
        lemma_fundamental_div_mod(price as int, 100);
        // q * p stays at or below price, and rem * p is small.
        lemma_mul_inequality(p as int, 100, q as int);
        lemma_mul_is_commutative(q as int, p as int);
        lemma_mul_is_commutative(q as int, 100);
        lemma_mul_inequality(p as int, 100, rem as int);
        lemma_mul_is_commutative(rem as int, p as int);
        lemma_mul_is_commutative(rem as int, 100);
        // rem * p / 100 is at most rem.
        lemma_div_is_ordered(rem as int * p as int, rem as int * 100, 100);
        lemma_div_multiples_vanish(rem as int, 100);
    }
    let hi: u128 = q * p;
    let lo: u128 = (rem * p) / 100;
    proof {
        lemma_hoist_over_denominator(rem as int * p as int, (q * p) as int, 100);
        assert(price as int * p as int == rem as int * p as int + (q * p) as int * 100)
            by (nonlinear_arith)
            requires
                price as int == 100 * (q as int) + rem as int,
                hi as int == q as int * p as int,
        ;
    }
    hi + lo
}

} // verus!
