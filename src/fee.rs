//! How a sale price splits between the seller and the treasury.
use vstd::prelude::*;

use crate::state::MarketplaceError;

verus! {

/// The treasury's share of `price`: the percentage, rounded down.
pub open spec fn fee_of(price: nat, fee_percentage: nat) -> nat {
    price * fee_percentage / 100
}

/// Splits `price` into the seller's amount and the fee, in that order.
pub fn split_price(price: u64, fee_percentage: u8) -> (r: Result<(u64, u64), MarketplaceError>)
    ensures
        r is Ok <==> fee_of(price as nat, fee_percentage as nat) <= price,
        r matches Ok((seller_amount, fee)) ==> {
            &&& fee == fee_of(price as nat, fee_percentage as nat)
            &&& seller_amount + fee == price
        },
        r is Err ==> r == Err::<(u64, u64), MarketplaceError>(MarketplaceError::MathOverflow),
{
    proof {
        assert(price as nat * fee_percentage as nat <= 0xffff_ffff_ffff_ffff * 255nat)
            by (nonlinear_arith)
            requires price <= 0xffff_ffff_ffff_ffffu64, fee_percentage <= 255u8;
    }
    let product: u128 = (price as u128) * (fee_percentage as u128);
    let fee_wide: u128 = product / 100;
    proof {
        assert(product == price as nat * fee_percentage as nat) by (nonlinear_arith)
            requires product == (price as u128) * (fee_percentage as u128);
    }
    if fee_wide > price as u128 {
        return Err(MarketplaceError::MathOverflow);
    }
    let fee: u64 = fee_wide as u64;
    Ok((price - fee, fee))
}

} // verus!
