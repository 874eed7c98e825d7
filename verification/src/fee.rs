use vstd::prelude::*;
use crate::error::TipError;

verus! {

/// Largest fee rate a record may hold, in basis points: ten percent.
pub const MAX_FEE_BPS: u16 = 1000;

/// Basis points in the whole.
pub const BPS_DENOMINATOR: u64 = 10_000;

/// The treasury's share of `amount` at `fee_bps` basis points, rounded down.
pub open spec fn fee_for(amount: nat, fee_bps: nat) -> nat {
    amount * fee_bps / 10_000
}

/// The recipient's share of `amount`: what the fee leaves.
pub open spec fn creator_share(amount: nat, fee_bps: nat) -> int {
    amount - fee_for(amount, fee_bps)
}

/// Whether the split of `amount` can be computed in 64 bits: the product
/// fits, and the fee does not exceed the amount.
pub open spec fn split_fits(amount: u64, fee_bps: u16) -> bool {
    &&& amount * fee_bps <= u64::MAX
    &&& fee_for(amount as nat, fee_bps as nat) <= amount
}

/// A tip divided between the recipient and the treasury.
#[derive(Clone, Copy, Debug, PartialEq, Eq, Structural)]
pub struct Split {
    pub fee: u64,
    pub creator_amount: u64,
}

/// At any rate up to the whole, the fee never exceeds the amount, and the
/// two shares add up to the amount.
pub proof fn lemma_split_conserves(amount: nat, fee_bps: nat)
    requires
        fee_bps <= 10_000,
    ensures
        fee_for(amount, fee_bps) <= amount,
        creator_share(amount, fee_bps) >= 0,
        creator_share(amount, fee_bps) + fee_for(amount, fee_bps) == amount,
{
    assert(amount * fee_bps <= amount * 10_000) by (nonlinear_arith)
        requires
            fee_bps <= 10_000,
    ;
    assert(amount * 10_000 / 10_000 == amount);
    assert(amount * fee_bps / 10_000 <= amount * 10_000 / 10_000);
}

/// At a permitted rate the split of a tip is computable exactly when the
/// product of amount and rate fits in 64 bits.
pub proof fn lemma_split_fits(amount: u64, fee_bps: u16)
    requires
        fee_bps <= MAX_FEE_BPS,
    ensures
        split_fits(amount, fee_bps) <==> amount * fee_bps <= u64::MAX,
{
    lemma_split_conserves(amount as nat, fee_bps as nat);
}

/// Divides `amount` at `fee_bps` basis points. The product is checked: one
/// that does not fit in 64 bits is an `ArithmeticOverflow`, as is a fee
/// larger than the amount.
pub fn split_tip(amount: u64, fee_bps: u16) -> (r: Result<Split, TipError>)
    ensures
        match r {
            Ok(s) => {
                &&& split_fits(amount, fee_bps)
                &&& s.fee == fee_for(amount as nat, fee_bps as nat)
                &&& s.creator_amount == creator_share(amount as nat, fee_bps as nat)
            },
            Err(e) => e == TipError::ArithmeticOverflow && !split_fits(amount, fee_bps),
        },
{
    match amount.checked_mul(fee_bps as u64) {
        None => Err(TipError::ArithmeticOverflow),
        Some(product) => {
            let fee = product / BPS_DENOMINATOR;
            match amount.checked_sub(fee) {
                None => Err(TipError::ArithmeticOverflow),
                Some(creator_amount) => Ok(Split { fee, creator_amount }),
            }
        },
    }
}

} // verus!
