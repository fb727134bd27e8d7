//! Properties that hold of every run of the instructions, stated over the
//! spec functions that their contracts use.
use vstd::prelude::*;

use crate::engine::{
    after_fee, after_payment, balance_before, buy_error, initialize_error, initialized, list_error,
    listed, settled, settlement_of, BuyProduct, Initialize, ListProduct,
};
use crate::fee::fee_of;
use crate::state::{InstructionError, MarketplaceError, TokenAccount, MAX_FEE_PERCENTAGE};

verus! {

/// A fee rate above the maximum is always rejected with `FeeTooHigh`, so
/// (by `initialize`'s contract) no configuration is created.
pub proof fn lemma_fee_too_high_rejected(c: Initialize, fee_percentage: u8)
    requires
        fee_percentage > MAX_FEE_PERCENTAGE,
    ensures
        initialize_error(c, fee_percentage) == Some(
            InstructionError::Marketplace(MarketplaceError::FeeTooHigh),
        ),
{
}

/// Once the configuration exists, `initialize` is always rejected, so (by its
/// contract) the stored fee rate and treasury stay as they were.
pub proof fn lemma_initialize_keeps_existing(c: Initialize, fee_percentage: u8)
    requires
        c.marketplace is Some,
    ensures
        initialize_error(c, fee_percentage) is Some,
{
}

/// A configuration that `initialize` creates has an allowed fee rate.
pub proof fn lemma_initialized_well_formed(c: Initialize, fee_percentage: u8)
    requires
        initialize_error(c, fee_percentage) is None,
    ensures
        initialized(c, fee_percentage).marketplace matches Some(m) && m.wf(),
{
}

/// A zero price is always rejected with `InvalidPrice`, so no listing or
/// custody holding is created.
pub proof fn lemma_zero_price_rejected(c: ListProduct)
    ensures
        list_error(c, 0) == Some(InstructionError::Marketplace(MarketplaceError::InvalidPrice)),
{
}

/// After a successful listing, custody holds exactly one unit of the asset,
/// owned by the listing record, and the seller's holding has one unit less.
pub proof fn lemma_listing_moves_one_unit(c: ListProduct, price: u64)
    requires
        list_error(c, price) is None,
    ensures
        listed(c, price).escrow_token_account == Some(
            TokenAccount {
                address: c.escrow_address,
                owner: c.listing_address,
                mint: c.nft_mint,
                amount: 1,
            },
        ),
        listed(c, price).seller_token_account.amount == c.seller_token_account.amount - 1,
        listed(c, price).listing matches Some(l) && !l.is_sold && l.price == price && l.wf(),
{
}

/// Buying a sold listing is always rejected with `AlreadySold`, so (by
/// `buy_product`'s contract) every balance stays as it was.
pub proof fn lemma_sold_listing_rejected(c: BuyProduct)
    requires
        c.listing matches Some(l) && l.is_sold,
    ensures
        buy_error(c) == Some(InstructionError::Marketplace(MarketplaceError::AlreadySold)),
{
}

/// For every price and every allowed fee rate the fee is the rate's share
/// rounded down, and the seller's amount and the fee add up to the price.
pub proof fn lemma_fee_split_exact(price: u64, fee_percentage: u8)
    requires
        fee_percentage <= MAX_FEE_PERCENTAGE,
    ensures
        fee_of(price as nat, fee_percentage as nat) <= price,
        (price - fee_of(price as nat, fee_percentage as nat)) + fee_of(
            price as nat,
            fee_percentage as nat,
        ) == price,
{
    assert(price as nat * fee_percentage as nat <= price as nat * 100) by (nonlinear_arith)
        requires
            fee_percentage <= 10u8,
    ;
}

/// A settlement pays the whole price out: the seller's amount and the fee
/// add up to it, and the fee is the rate's share rounded down.
pub proof fn lemma_settlement_splits_price(c: BuyProduct)
    requires
        buy_error(c) is None,
    ensures
        settlement_of(c).seller_amount + settlement_of(c).fee == c.listing->Some_0.price,
        settlement_of(c).fee == fee_of(
            c.listing->Some_0.price as nat,
            c.marketplace->Some_0.fee_percentage as nat,
        ),
{
}

/// After a settlement every wallet holds exactly its balance after the two
/// transfers of the sale, with nothing cut to fit: the buyer could pay the
/// seller's amount, and then the fee, out of what it held at each step.
pub proof fn lemma_settlement_balances_exact(c: BuyProduct)
    requires
        buy_error(c) is None,
    ensures
        balance_before(c, c.buyer.address@) >= settlement_of(c).seller_amount,
        after_payment(c, c.buyer.address@) >= settlement_of(c).fee,
        settled(c).buyer.lamports == after_fee(c, c.buyer.address@),
        settled(c).seller.lamports == after_fee(c, c.seller.address@),
        settled(c).treasury.lamports == after_fee(c, c.treasury.address@),
{
}

/// With buyer, seller and treasury three different wallets, a settlement
/// moves exactly the price out of the buyer's wallet: the seller gains the
/// price less the fee, the treasury gains the fee.
pub proof fn lemma_settlement_moves_funds(c: BuyProduct)
    requires
        buy_error(c) is None,
        c.buyer.address@ != c.seller.address@,
        c.buyer.address@ != c.treasury.address@,
        c.seller.address@ != c.treasury.address@,
    ensures
        settled(c).buyer.lamports == c.buyer.lamports - c.listing->Some_0.price,
        settled(c).seller.lamports == c.seller.lamports + settlement_of(c).seller_amount,
        settled(c).treasury.lamports == c.treasury.lamports + settlement_of(c).fee,
{
}

/// Where the seller's wallet is also the treasury, that wallet gains the
/// whole price, fee included, and both views of it agree.
pub proof fn lemma_seller_as_treasury_gains_price(c: BuyProduct)
    requires
        buy_error(c) is None,
        c.seller == c.treasury,
        c.buyer.address@ != c.seller.address@,
    ensures
        settled(c).seller.lamports == c.seller.lamports + c.listing->Some_0.price,
        settled(c).treasury == settled(c).seller,
{
}

/// A settlement is terminal: custody is closed, the listing is sold, and any
/// later purchase of that listing, by whichever buyer, is rejected with
/// `AlreadySold`. So of purchases of one listing, at most one commits.
pub proof fn lemma_settlement_is_terminal(c: BuyProduct, later: BuyProduct)
    requires
        buy_error(c) is None,
        later.listing == settled(c).listing,
    ensures
        settled(c).escrow_token_account is None,
        settled(c).listing matches Some(l) && l.is_sold,
        buy_error(later) == Some(InstructionError::Marketplace(MarketplaceError::AlreadySold)),
{
}

} // verus!
