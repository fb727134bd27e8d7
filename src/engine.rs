//! The three instructions of the marketplace, each over the accounts that it
//! touches. An instruction either makes all of its changes and returns `Ok`,
//! or returns an error and leaves every account as it was.
use vstd::prelude::*;

use crate::address::{
    escrow_address, escrow_address_spec, listing_address, listing_address_spec,
    marketplace_address, marketplace_address_spec, Address,
};
use crate::fee::{fee_of, split_price};
use crate::state::{
    outcome, InstructionError, Listing, Marketplace, MarketplaceError, Settlement, TokenAccount,
    Wallet, MAX_FEE_PERCENTAGE,
};

verus! {

/// What is wrong, if anything, with a record found at `actual` whose seeds
/// derive `expected`.
pub open spec fn derivation_error(
    expected: Option<Seq<u8>>,
    actual: Address,
    mismatch: InstructionError,
) -> Option<InstructionError> {
    match expected {
        None => Some(InstructionError::AddressDerivation),
        Some(a) => if a != actual@ {
            Some(mismatch)
        } else {
            None
        },
    }
}

/// Checks a record's address against the one derived from its seeds.
fn check_derived(
    derived: Option<Address>,
    actual: &Address,
    mismatch: InstructionError,
) -> (r: Result<(), InstructionError>)
    ensures
        r == outcome(
            derivation_error(
                match derived {
                    Some(a) => Some(a@),
                    None => None,
                },
                *actual,
                mismatch,
            ),
        ),
{
    match derived {
        None => Err(InstructionError::AddressDerivation),
        Some(a) => if a.equals(actual) {
            Ok(())
        } else {
            Err(mismatch)
        },
    }
}

/// The accounts of `initialize`.
#[derive(Clone, Copy, Debug, PartialEq, Eq)]
pub struct Initialize {
    /// Where the configuration record lives.
    pub marketplace_address: Address,
    /// The configuration record there, if it exists.
    pub marketplace: Option<Marketplace>,
    /// The administrator creating the marketplace.
    pub authority: Address,
    /// The wallet that will receive fees.
    pub treasury_account: Address,
}

/// Why `initialize` is rejected, if it is.
pub open spec fn initialize_error(c: Initialize, fee_percentage: u8) -> Option<InstructionError> {
    if fee_percentage > MAX_FEE_PERCENTAGE {
        Some(InstructionError::Marketplace(MarketplaceError::FeeTooHigh))
    } else if derivation_error(
        marketplace_address_spec(),
        c.marketplace_address,
        InstructionError::ConstraintSeeds,
    ) is Some {
        derivation_error(
            marketplace_address_spec(),
            c.marketplace_address,
            InstructionError::ConstraintSeeds,
        )
    } else if c.marketplace is Some {
        Some(InstructionError::AccountAlreadyInitialized)
    } else {
        None
    }
}

/// The accounts after a successful `initialize`.
pub open spec fn initialized(c: Initialize, fee_percentage: u8) -> Initialize {
    Initialize {
        marketplace: Some(
            Marketplace {
                authority: c.authority,
                fee_percentage,
                treasury: c.treasury_account,
            },
        ),
        ..c
    }
}

/// Creates the marketplace's configuration with the given fee rate.
pub fn initialize(ctx: &mut Initialize, fee_percentage: u8) -> (r: Result<(), InstructionError>)
    ensures
        r == outcome(initialize_error(*old(ctx), fee_percentage)),
        r is Ok ==> *final(ctx) == initialized(*old(ctx), fee_percentage),
        r is Err ==> *final(ctx) == *old(ctx),
{
    if fee_percentage > MAX_FEE_PERCENTAGE {
        return Err(InstructionError::Marketplace(MarketplaceError::FeeTooHigh));
    }
    check_derived(marketplace_address(), &ctx.marketplace_address, InstructionError::ConstraintSeeds)?;
    if ctx.marketplace.is_some() {
        return Err(InstructionError::AccountAlreadyInitialized);
    }
    ctx.marketplace = Some(
        Marketplace {
            authority: ctx.authority,
            fee_percentage,
            treasury: ctx.treasury_account,
        },
    );
    Ok(())
}

/// The accounts of `list_product`.
#[derive(Clone, Copy, Debug, PartialEq, Eq)]
pub struct ListProduct {
    /// Where the listing record lives.
    pub listing_address: Address,
    /// The listing record there, if it exists.
    pub listing: Option<Listing>,
    /// The seller, who signs the listing.
    pub seller: Address,
    /// The asset offered.
    pub nft_mint: Address,
    /// The seller's holding of the asset.
    pub seller_token_account: TokenAccount,
    /// Where the custody holding lives.
    pub escrow_address: Address,
    /// The custody holding there, if it exists.
    pub escrow_token_account: Option<TokenAccount>,
}

/// Why `list_product` is rejected, if it is.
pub open spec fn list_error(c: ListProduct, price: u64) -> Option<InstructionError> {
    let listing_err = derivation_error(
        listing_address_spec(c.nft_mint@),
        c.listing_address,
        InstructionError::ConstraintSeeds,
    );
    let escrow_err = derivation_error(
        escrow_address_spec(c.listing_address@, c.nft_mint@),
        c.escrow_address,
        InstructionError::ConstraintAssociated,
    );
    if price == 0 {
        Some(InstructionError::Marketplace(MarketplaceError::InvalidPrice))
    } else if listing_err is Some {
        listing_err
    } else if c.listing is Some {
        Some(InstructionError::AccountAlreadyInitialized)
    } else if c.seller_token_account.owner@ != c.seller@ {
        Some(InstructionError::ConstraintTokenOwner)
    } else if c.seller_token_account.mint@ != c.nft_mint@ {
        Some(InstructionError::ConstraintTokenMint)
    } else if c.seller_token_account.amount < 1 {
        Some(InstructionError::InsufficientTokens)
    } else if escrow_err is Some {
        escrow_err
    } else if c.escrow_token_account is Some || c.seller_token_account.address@ == c.escrow_address@ {
        Some(InstructionError::AccountAlreadyInitialized)
    } else {
        None
    }
}

/// The accounts after a successful `list_product`: the listing is recorded,
/// and one unit of the asset has moved from the seller's holding into custody.
pub open spec fn listed(c: ListProduct, price: u64) -> ListProduct {
    ListProduct {
        listing: Some(
            Listing {
                seller: c.seller,
                nft_mint: c.nft_mint,
                price,
                seller_token_account: c.seller_token_account.address,
                escrow_token_account: c.escrow_address,
                is_sold: false,
            },
        ),
        seller_token_account: TokenAccount {
            amount: (c.seller_token_account.amount - 1) as u64,
            ..c.seller_token_account
        },
        escrow_token_account: Some(
            TokenAccount {
                address: c.escrow_address,
                owner: c.listing_address,
                mint: c.nft_mint,
                amount: 1,
            },
        ),
        ..c
    }
}

/// Offers the seller's asset at `price`, moving one unit of it into custody.
pub fn list_product(ctx: &mut ListProduct, price: u64) -> (r: Result<(), InstructionError>)
    ensures
        r == outcome(list_error(*old(ctx), price)),
        r is Ok ==> *final(ctx) == listed(*old(ctx), price),
        r is Err ==> *final(ctx) == *old(ctx),
{
    if price == 0 {
        return Err(InstructionError::Marketplace(MarketplaceError::InvalidPrice));
    }
    check_derived(
        listing_address(&ctx.nft_mint),
        &ctx.listing_address,
        InstructionError::ConstraintSeeds,
    )?;
    if ctx.listing.is_some() {
        return Err(InstructionError::AccountAlreadyInitialized);
    }
    if !ctx.seller_token_account.owner.equals(&ctx.seller) {
        return Err(InstructionError::ConstraintTokenOwner);
    }
    if !ctx.seller_token_account.mint.equals(&ctx.nft_mint) {
        return Err(InstructionError::ConstraintTokenMint);
    }
    if ctx.seller_token_account.amount < 1 {
        return Err(InstructionError::InsufficientTokens);
    }
    check_derived(
        escrow_address(&ctx.listing_address, &ctx.nft_mint),
        &ctx.escrow_address,
        InstructionError::ConstraintAssociated,
    )?;
    if ctx.escrow_token_account.is_some() || ctx.seller_token_account.address.equals(
        &ctx.escrow_address,
    ) {
        return Err(InstructionError::AccountAlreadyInitialized);
    }
    ctx.listing = Some(
        Listing {
            seller: ctx.seller,
            nft_mint: ctx.nft_mint,
            price,
            seller_token_account: ctx.seller_token_account.address,
            escrow_token_account: ctx.escrow_address,
            is_sold: false,
        },
    );
    ctx.escrow_token_account = Some(
        TokenAccount {
            address: ctx.escrow_address,
            owner: ctx.listing_address,
            mint: ctx.nft_mint,
            amount: 1,
        },
    );
    ctx.seller_token_account.amount = ctx.seller_token_account.amount - 1;
    Ok(())
}

/// The accounts of `buy_product`.
#[derive(Clone, Copy, Debug, PartialEq, Eq)]
pub struct BuyProduct {
    /// Where the listing record lives.
    pub listing_address: Address,
    /// The listing record there, if it exists.
    pub listing: Option<Listing>,
    /// Where the configuration record lives.
    pub marketplace_address: Address,
    /// The configuration record there, if it exists.
    pub marketplace: Option<Marketplace>,
    /// The buyer, who signs and pays.
    pub buyer: Wallet,
    /// Receives the price less the fee.
    pub seller: Wallet,
    /// Receives the fee.
    pub treasury: Wallet,
    /// The custody holding of the asset, if it exists.
    pub escrow_token_account: Option<TokenAccount>,
    /// The buyer's holding, which receives the asset.
    pub buyer_token_account: TokenAccount,
}

/// Why `buy_product` is rejected, if it is.
pub open spec fn buy_error(c: BuyProduct) -> Option<InstructionError> {
    let l = c.listing->Some_0;
    let m = c.marketplace->Some_0;
    let e = c.escrow_token_account->Some_0;
    let listing_err = derivation_error(
        listing_address_spec(l.nft_mint@),
        c.listing_address,
        InstructionError::ConstraintSeeds,
    );
    let marketplace_err = derivation_error(
        marketplace_address_spec(),
        c.marketplace_address,
        InstructionError::ConstraintSeeds,
    );
    let fee = fee_of(l.price as nat, m.fee_percentage as nat);
    let pay = settlement_of(c);
    let buyer = c.buyer.address@;
    let seller = c.seller.address@;
    let treasury = c.treasury.address@;
    if c.listing is None {
        Some(InstructionError::AccountNotInitialized)
    } else if l.is_sold {
        Some(InstructionError::Marketplace(MarketplaceError::AlreadySold))
    } else if listing_err is Some {
        listing_err
    } else if c.marketplace is None {
        Some(InstructionError::AccountNotInitialized)
    } else if marketplace_err is Some {
        marketplace_err
    } else if c.seller.address@ != l.seller@ {
        Some(InstructionError::Marketplace(MarketplaceError::InvalidSeller))
    } else if c.treasury.address@ != m.treasury@ {
        Some(InstructionError::Marketplace(MarketplaceError::InvalidTreasury))
    } else if c.escrow_token_account is None {
        Some(InstructionError::AccountNotInitialized)
    } else if e.address@ != l.escrow_token_account@ {
        Some(InstructionError::ConstraintAddress)
    } else if e.owner@ != c.listing_address@ {
        Some(InstructionError::Marketplace(MarketplaceError::InvalidSeller))
    } else if e.mint@ != l.nft_mint@ {
        Some(InstructionError::ConstraintTokenMint)
    } else if e.amount < 1 {
        Some(InstructionError::InsufficientTokens)
    } else if c.buyer_token_account.owner@ != c.buyer.address@ {
        Some(InstructionError::ConstraintTokenOwner)
    } else if c.buyer_token_account.mint@ != l.nft_mint@ {
        Some(InstructionError::ConstraintTokenMint)
    } else if c.buyer_token_account.address@ == e.address@ {
        Some(InstructionError::DuplicateAccount)
    } else if l.price == 0 {
        Some(InstructionError::Marketplace(MarketplaceError::InvalidPrice))
    } else if fee > l.price {
        Some(InstructionError::Marketplace(MarketplaceError::MathOverflow))
    } else if balance_before(c, buyer) < pay.seller_amount {
        Some(InstructionError::InsufficientFunds)
    } else if seller != buyer && after_payment(c, seller) > u64::MAX {
        Some(InstructionError::ArithmeticOverflow)
    } else if after_payment(c, buyer) < pay.fee {
        Some(InstructionError::InsufficientFunds)
    } else if treasury != buyer && after_fee(c, treasury) > u64::MAX {
        Some(InstructionError::ArithmeticOverflow)
    } else if c.buyer_token_account.amount + 1 > u64::MAX {
        Some(InstructionError::ArithmeticOverflow)
    } else if e.amount != 1 {
        Some(InstructionError::NonZeroBalanceOnClose)
    } else {
        None
    }
}

/// How the sale of the listing in `c` splits its price.
pub open spec fn settlement_of(c: BuyProduct) -> Settlement {
    let price = c.listing->Some_0.price;
    let fee = fee_of(price as nat, c.marketplace->Some_0.fee_percentage as nat);
    Settlement { seller_amount: (price - fee) as u64, fee: fee as u64 }
}

/// The balance of the wallet at address `a`, one of the three wallets of
/// the sale, before it. Where one wallet holds several roles, its copies
/// are read in the order buyer, seller, treasury.
pub open spec fn balance_before(c: BuyProduct, a: Seq<u8>) -> int {
    if a == c.buyer.address@ {
        c.buyer.lamports as int
    } else if a == c.seller.address@ {
        c.seller.lamports as int
    } else {
        c.treasury.lamports as int
    }
}

/// The balance at address `a` after the first transfer of the sale: the
/// seller's amount, from the buyer to the seller.
pub open spec fn after_payment(c: BuyProduct, a: Seq<u8>) -> int {
    let amount = settlement_of(c).seller_amount as int;
    balance_before(c, a) - (if a == c.buyer.address@ {
        amount
    } else {
        0
    }) + (if a == c.seller.address@ {
        amount
    } else {
        0
    })
}

/// The balance at address `a` after the second transfer of the sale: the
/// fee, from the buyer to the treasury.
pub open spec fn after_fee(c: BuyProduct, a: Seq<u8>) -> int {
    let fee = settlement_of(c).fee as int;
    after_payment(c, a) - (if a == c.buyer.address@ {
        fee
    } else {
        0
    }) + (if a == c.treasury.address@ {
        fee
    } else {
        0
    })
}

/// The result of `buy_product` on the accounts `c`.
pub open spec fn buy_outcome(c: BuyProduct) -> Result<Settlement, InstructionError> {
    match buy_error(c) {
        Some(e) => Err(e),
        None => Ok(settlement_of(c)),
    }
}

/// The accounts after a successful `buy_product`: each wallet has its
/// balance after both transfers of the sale (sale proceeds only: the
/// storage refunds of the two closed records are the ledger's), the asset has left custody for the buyer's
/// holding, the custody holding is closed and the listing is sold.
pub open spec fn settled(c: BuyProduct) -> BuyProduct {
    let l = c.listing->Some_0;
    BuyProduct {
        listing: Some(Listing { is_sold: true, ..l }),
        buyer: Wallet { lamports: after_fee(c, c.buyer.address@) as u64, ..c.buyer },
        seller: Wallet { lamports: after_fee(c, c.seller.address@) as u64, ..c.seller },
        treasury: Wallet { lamports: after_fee(c, c.treasury.address@) as u64, ..c.treasury },
        escrow_token_account: None,
        buyer_token_account: TokenAccount {
            amount: (c.buyer_token_account.amount + 1) as u64,
            ..c.buyer_token_account
        },
        ..c
    }
}

/// The balances at address `a` before the sale, after its first transfer
/// and after its second, for a sale that pays `s`.
fn balances_at(c: &BuyProduct, a: &Address, s: Settlement) -> (r: (i128, i128, i128))
    requires
        c.listing is Some,
        c.marketplace is Some,
        s == settlement_of(*c),
    ensures
        r.0 as int == balance_before(*c, a@),
        r.1 as int == after_payment(*c, a@),
        r.2 as int == after_fee(*c, a@),
{
    let is_buyer = a.equals(&c.buyer.address);
    let is_seller = a.equals(&c.seller.address);
    let is_treasury = a.equals(&c.treasury.address);
    let before: i128 = if is_buyer {
        c.buyer.lamports as i128
    } else if is_seller {
        c.seller.lamports as i128
    } else {
        c.treasury.lamports as i128
    };
    let mut paid: i128 = before;
    if is_buyer {
        paid = paid - s.seller_amount as i128;
    }
    if is_seller {
        paid = paid + s.seller_amount as i128;
    }
    let mut charged: i128 = paid;
    if is_buyer {
        charged = charged - s.fee as i128;
    }
    if is_treasury {
        charged = charged + s.fee as i128;
    }
    (before, paid, charged)
}

/// Settles the sale: the buyer pays, the fee goes to the treasury, the rest
/// to the seller, and the asset leaves custody for the buyer. Returns what
/// was paid to the seller and to the treasury.
pub fn buy_product(ctx: &mut BuyProduct) -> (r: Result<Settlement, InstructionError>)
    ensures
        r == buy_outcome(*old(ctx)),
        r is Ok ==> *final(ctx) == settled(*old(ctx)),
        r is Err ==> *final(ctx) == *old(ctx),
{
    let l = match ctx.listing {
        Some(l) => l,
        None => return Err(InstructionError::AccountNotInitialized),
    };
    if l.is_sold {
        return Err(InstructionError::Marketplace(MarketplaceError::AlreadySold));
    }
    check_derived(listing_address(&l.nft_mint), &ctx.listing_address, InstructionError::ConstraintSeeds)?;
    let m = match ctx.marketplace {
        Some(m) => m,
        None => return Err(InstructionError::AccountNotInitialized),
    };
    check_derived(marketplace_address(), &ctx.marketplace_address, InstructionError::ConstraintSeeds)?;
    if !ctx.seller.address.equals(&l.seller) {
        return Err(InstructionError::Marketplace(MarketplaceError::InvalidSeller));
    }
    if !ctx.treasury.address.equals(&m.treasury) {
        return Err(InstructionError::Marketplace(MarketplaceError::InvalidTreasury));
    }
    let e = match ctx.escrow_token_account {
        Some(e) => e,
        None => return Err(InstructionError::AccountNotInitialized),
    };
    if !e.address.equals(&l.escrow_token_account) {
        return Err(InstructionError::ConstraintAddress);
    }
    if !e.owner.equals(&ctx.listing_address) {
        return Err(InstructionError::Marketplace(MarketplaceError::InvalidSeller));
    }
    if !e.mint.equals(&l.nft_mint) {
        return Err(InstructionError::ConstraintTokenMint);
    }
    if e.amount < 1 {
        return Err(InstructionError::InsufficientTokens);
    }
    if !ctx.buyer_token_account.owner.equals(&ctx.buyer.address) {
        return Err(InstructionError::ConstraintTokenOwner);
    }
    if !ctx.buyer_token_account.mint.equals(&l.nft_mint) {
        return Err(InstructionError::ConstraintTokenMint);
    }
    if ctx.buyer_token_account.address.equals(&e.address) {
        return Err(InstructionError::DuplicateAccount);
    }
    if l.price == 0 {
        return Err(InstructionError::Marketplace(MarketplaceError::InvalidPrice));
    }
    let (seller_amount, fee) = match split_price(l.price, m.fee_percentage) {
        Ok(split) => split,
        Err(err) => return Err(InstructionError::Marketplace(err)),
    };
    let s = Settlement { seller_amount, fee };
    let c = *ctx;
    let buyer = balances_at(&c, &c.buyer.address, s);
    let seller = balances_at(&c, &c.seller.address, s);
    let treasury = balances_at(&c, &c.treasury.address, s);
    if buyer.0 < seller_amount as i128 {
        return Err(InstructionError::InsufficientFunds);
    }
    if !c.seller.address.equals(&c.buyer.address) && seller.1 > u64::MAX as i128 {
        return Err(InstructionError::ArithmeticOverflow);
    }
    if buyer.1 < fee as i128 {
        return Err(InstructionError::InsufficientFunds);
    }
    if !c.treasury.address.equals(&c.buyer.address) && treasury.2 > u64::MAX as i128 {
        return Err(InstructionError::ArithmeticOverflow);
    }
    if ctx.buyer_token_account.amount == u64::MAX {
        return Err(InstructionError::ArithmeticOverflow);
    }
    if e.amount != 1 {
        return Err(InstructionError::NonZeroBalanceOnClose);
    }
    ctx.buyer.lamports = buyer.2 as u64;
    ctx.seller.lamports = seller.2 as u64;
    ctx.treasury.lamports = treasury.2 as u64;
    ctx.buyer_token_account.amount = ctx.buyer_token_account.amount + 1;
    ctx.escrow_token_account = None;
    ctx.listing = Some(Listing { is_sold: true, ..l });
    Ok(s)
}

} // verus!
