//! The records that the ledger holds for the marketplace.
use vstd::prelude::*;

use crate::address::Address;

verus! {

/// The largest fee rate, in percent, that a marketplace may be created with.
pub const MAX_FEE_PERCENTAGE: u8 = 10;

/// The marketplace's singleton configuration.
#[derive(Clone, Copy, Debug, PartialEq, Eq)]
pub struct Marketplace {
    /// The administrator that created the marketplace.
    pub authority: Address,
    /// Percent of each sale price that goes to the treasury.
    pub fee_percentage: u8,
    /// Receives the fee of every sale.
    pub treasury: Address,
}

impl Marketplace {
    /// The fee rate never exceeds the maximum.
    pub open spec fn wf(&self) -> bool {
        self.fee_percentage <= MAX_FEE_PERCENTAGE
    }
}

/// The record of one asset offered for sale at a fixed price.
#[derive(Clone, Copy, Debug, PartialEq, Eq)]
pub struct Listing {
    /// Created the listing and receives the proceeds.
    pub seller: Address,
    /// The asset (its mint) being sold.
    pub nft_mint: Address,
    /// Amount of base currency a buyer pays.
    pub price: u64,
    /// The seller's holding the asset came from.
    pub seller_token_account: Address,
    /// The custody holding that keeps the asset until the sale.
    pub escrow_token_account: Address,
    /// Set once, by the sale.
    pub is_sold: bool,
}

impl Listing {
    /// Every listing has a positive price.
    pub open spec fn wf(&self) -> bool {
        self.price > 0
    }
}

/// A holding of one kind of asset.
#[derive(Clone, Copy, Debug, PartialEq, Eq)]
pub struct TokenAccount {
    /// Where the holding lives.
    pub address: Address,
    /// Who may move the units out of it.
    pub owner: Address,
    /// Which asset it holds.
    pub mint: Address,
    /// How many units it holds.
    pub amount: u64,
}

/// A wallet's balance of base currency. The model counts what sales move;
/// the storage costs that the ledger charges and refunds for records are
/// its own accounting and are not counted here.
#[derive(Clone, Copy, Debug, PartialEq, Eq)]
pub struct Wallet {
    pub address: Address,
    pub lamports: u64,
}

/// What a sale pays out of the price.
#[derive(Clone, Copy, Debug, PartialEq, Eq, Structural)]
pub struct Settlement {
    /// Paid to the seller.
    pub seller_amount: u64,
    /// Paid to the treasury.
    pub fee: u64,
}

/// What the marketplace itself rejects.
#[derive(Clone, Copy, Debug, PartialEq, Eq, Structural)]
pub enum MarketplaceError {
    FeeTooHigh,
    AlreadySold,
    InvalidPrice,
    MathOverflow,
    InvalidSeller,
    InvalidTreasury,
}

/// Why an instruction was rejected: by the marketplace's own rules, or by
/// the ledger's rules on the accounts that it was handed.
#[derive(Clone, Copy, Debug, PartialEq, Eq, Structural)]
pub enum InstructionError {
    /// Rejected by the marketplace.
    Marketplace(MarketplaceError),
    /// No address can be derived from the record's seeds.
    AddressDerivation,
    /// A record is not at the address derived from its seeds.
    ConstraintSeeds,
    /// A custody holding is not at the address derived for it.
    ConstraintAssociated,
    /// A holding is not the one that the listing recorded.
    ConstraintAddress,
    /// A holding is not owned by the party that must own it.
    ConstraintTokenOwner,
    /// A holding does not hold the listed asset.
    ConstraintTokenMint,
    /// A holding has no unit of the asset to give.
    InsufficientTokens,
    /// A record or holding to be created already exists.
    AccountAlreadyInitialized,
    /// A record or holding to be read does not exist.
    AccountNotInitialized,
    /// The buyer's holding is the custody holding itself.
    DuplicateAccount,
    /// The buyer cannot pay the price.
    InsufficientFunds,
    /// A balance would exceed its largest value.
    ArithmeticOverflow,
    /// A holding to be closed still holds units.
    NonZeroBalanceOnClose,
}

/// The outcome that an optional error stands for.
pub open spec fn outcome(e: Option<InstructionError>) -> Result<(), InstructionError> {
    match e {
        Some(e) => Err(e),
        None => Ok(()),
    }
}

} // verus!
