use std::str::FromStr;

use anchor_lang::prelude::Pubkey;
use marketify::address::{escrow_address, listing_address, marketplace_address, program_id, Address};
use marketify::engine::{buy_product, initialize, list_product, BuyProduct, Initialize, ListProduct};
use marketify::fee::split_price;
use marketify::state::{
    InstructionError, Listing, Marketplace, MarketplaceError, Settlement, TokenAccount, Wallet,
};

fn addr(n: u8) -> Address {
    Address::new([n; 32])
}

const ADMIN: u8 = 1;
const TREASURY: u8 = 2;
const SELLER: u8 = 3;
const BUYER: u8 = 4;
const MINT: u8 = 5;
const SELLER_HOLDING: u8 = 6;
const BUYER_HOLDING: u8 = 7;

fn fresh_initialize() -> Initialize {
    Initialize {
        marketplace_address: marketplace_address().unwrap(),
        marketplace: None,
        authority: addr(ADMIN),
        treasury_account: addr(TREASURY),
    }
}

fn fresh_listing() -> ListProduct {
    let listing = listing_address(&addr(MINT)).unwrap();
    ListProduct {
        listing_address: listing,
        listing: None,
        seller: addr(SELLER),
        nft_mint: addr(MINT),
        seller_token_account: TokenAccount {
            address: addr(SELLER_HOLDING),
            owner: addr(SELLER),
            mint: addr(MINT),
            amount: 1,
        },
        escrow_address: escrow_address(&listing, &addr(MINT)).unwrap(),
        escrow_token_account: None,
    }
}

fn purchase(init: &Initialize, list: &ListProduct, buyer_lamports: u64) -> BuyProduct {
    BuyProduct {
        listing_address: list.listing_address,
        listing: list.listing,
        marketplace_address: init.marketplace_address,
        marketplace: init.marketplace,
        buyer: Wallet { address: addr(BUYER), lamports: buyer_lamports },
        seller: Wallet { address: addr(SELLER), lamports: 0 },
        treasury: Wallet { address: addr(TREASURY), lamports: 0 },
        escrow_token_account: list.escrow_token_account,
        buyer_token_account: TokenAccount {
            address: addr(BUYER_HOLDING),
            owner: addr(BUYER),
            mint: addr(MINT),
            amount: 0,
        },
    }
}

fn listed_with_fee(fee: u8, price: u64) -> (Initialize, ListProduct) {
    let mut init = fresh_initialize();
    initialize(&mut init, fee).unwrap();
    let mut list = fresh_listing();
    list_product(&mut list, price).unwrap();
    (init, list)
}

#[test]
fn split_price_example() {
    assert_eq!(split_price(1000, 5), Ok((950, 50)));
}

#[test]
fn split_price_rounds_fee_down() {
    assert_eq!(split_price(2000, 3), Ok((1940, 60)));
    assert_eq!(split_price(99, 10), Ok((90, 9)));
    assert_eq!(split_price(9, 10), Ok((9, 0)));
    assert_eq!(split_price(500, 0), Ok((500, 0)));
}

#[test]
fn split_price_largest_price() {
    let max = u64::MAX;
    let fee = ((max as u128) * 10 / 100) as u64;
    assert_eq!(split_price(max, 10), Ok((max - fee, fee)));
}

#[test]
fn split_price_fee_above_price_is_overflow() {
    assert_eq!(split_price(100, 255), Err(MarketplaceError::MathOverflow));
}

#[test]
fn derived_addresses_are_deterministic_and_distinct() {
    let a = listing_address(&addr(MINT)).unwrap();
    assert_eq!(listing_address(&addr(MINT)).unwrap(), a);
    assert_ne!(a, addr(MINT));
    assert_ne!(listing_address(&addr(MINT + 1)).unwrap(), a);
    let m = marketplace_address().unwrap();
    assert_ne!(m, a);
    assert_ne!(m, program_id());
    let e = escrow_address(&a, &addr(MINT)).unwrap();
    assert_ne!(e, a);
    assert_ne!(e, addr(MINT));
}

#[test]
fn initialize_stores_configuration() {
    let mut init = fresh_initialize();
    assert_eq!(initialize(&mut init, 3), Ok(()));
    assert_eq!(
        init.marketplace,
        Some(Marketplace { authority: addr(ADMIN), fee_percentage: 3, treasury: addr(TREASURY) })
    );
}

#[test]
fn initialize_accepts_largest_fee() {
    let mut init = fresh_initialize();
    assert_eq!(initialize(&mut init, 10), Ok(()));
}

#[test]
fn initialize_rejects_fee_too_high() {
    for fee in [11u8, 50, 255] {
        let mut init = fresh_initialize();
        let before = init;
        assert_eq!(
            initialize(&mut init, fee),
            Err(InstructionError::Marketplace(MarketplaceError::FeeTooHigh))
        );
        assert_eq!(init, before);
    }
}

#[test]
fn initialize_twice_keeps_first_configuration() {
    let mut init = fresh_initialize();
    initialize(&mut init, 3).unwrap();
    let before = init;
    init.treasury_account = addr(9);
    let expected = Initialize { treasury_account: addr(9), ..before };
    assert_eq!(initialize(&mut init, 7), Err(InstructionError::AccountAlreadyInitialized));
    assert_eq!(init, expected);
    assert_eq!(init.marketplace.unwrap().fee_percentage, 3);
    assert_eq!(init.marketplace.unwrap().treasury, addr(TREASURY));
}

#[test]
fn initialize_rejects_wrong_address() {
    let mut init = fresh_initialize();
    init.marketplace_address = addr(8);
    assert_eq!(initialize(&mut init, 3), Err(InstructionError::ConstraintSeeds));
    assert_eq!(init.marketplace, None);
}

#[test]
fn list_product_moves_one_unit_into_custody() {
    let mut list = fresh_listing();
    list.seller_token_account.amount = 3;
    assert_eq!(list_product(&mut list, 2000), Ok(()));
    assert_eq!(list.seller_token_account.amount, 2);
    let escrow = list.escrow_token_account.unwrap();
    assert_eq!(escrow.amount, 1);
    assert_eq!(escrow.owner, list.listing_address);
    assert_eq!(escrow.mint, addr(MINT));
    assert_eq!(
        list.listing,
        Some(Listing {
            seller: addr(SELLER),
            nft_mint: addr(MINT),
            price: 2000,
            seller_token_account: addr(SELLER_HOLDING),
            escrow_token_account: list.escrow_address,
            is_sold: false,
        })
    );
}

#[test]
fn list_product_rejects_zero_price() {
    let mut list = fresh_listing();
    let before = list;
    assert_eq!(
        list_product(&mut list, 0),
        Err(InstructionError::Marketplace(MarketplaceError::InvalidPrice))
    );
    assert_eq!(list, before);
}

#[test]
fn list_product_rejects_bad_seller_holding() {
    let mut list = fresh_listing();
    list.seller_token_account.owner = addr(BUYER);
    assert_eq!(list_product(&mut list, 10), Err(InstructionError::ConstraintTokenOwner));
    let mut list = fresh_listing();
    list.seller_token_account.mint = addr(MINT + 1);
    assert_eq!(list_product(&mut list, 10), Err(InstructionError::ConstraintTokenMint));
    let mut list = fresh_listing();
    list.seller_token_account.amount = 0;
    let before = list;
    assert_eq!(list_product(&mut list, 10), Err(InstructionError::InsufficientTokens));
    assert_eq!(list, before);
}

#[test]
fn list_product_rejects_second_listing() {
    let mut list = fresh_listing();
    list_product(&mut list, 10).unwrap();
    list.seller_token_account.amount = 1;
    assert_eq!(list_product(&mut list, 10), Err(InstructionError::AccountAlreadyInitialized));
}

#[test]
fn list_product_rejects_wrong_addresses() {
    let mut list = fresh_listing();
    list.listing_address = addr(8);
    assert_eq!(list_product(&mut list, 10), Err(InstructionError::ConstraintSeeds));
    let mut list = fresh_listing();
    list.escrow_address = addr(8);
    assert_eq!(list_product(&mut list, 10), Err(InstructionError::ConstraintAssociated));
}

#[test]
fn end_to_end_sale() {
    let (init, list) = listed_with_fee(3, 2000);
    let mut buy = purchase(&init, &list, 5000);
    assert_eq!(buy_product(&mut buy), Ok(Settlement { seller_amount: 1940, fee: 60 }));
    assert_eq!(buy.buyer_token_account.amount, 1);
    assert_eq!(buy.buyer.lamports, 3000);
    assert_eq!(buy.seller.lamports, 1940);
    assert_eq!(buy.treasury.lamports, 60);
    assert_eq!(buy.escrow_token_account, None);
    assert!(buy.listing.unwrap().is_sold);
}

#[test]
fn second_purchase_is_already_sold() {
    let (init, list) = listed_with_fee(3, 2000);
    let mut first = purchase(&init, &list, 5000);
    buy_product(&mut first).unwrap();
    let mut second = purchase(&init, &list, 5000);
    second.listing = first.listing;
    second.buyer.address = addr(10);
    second.buyer_token_account.owner = addr(10);
    let before = second;
    assert_eq!(
        buy_product(&mut second),
        Err(InstructionError::Marketplace(MarketplaceError::AlreadySold))
    );
    assert_eq!(second, before);
}

#[test]
fn buy_product_rejects_wrong_parties() {
    let (init, list) = listed_with_fee(5, 1000);
    let mut buy = purchase(&init, &list, 5000);
    buy.seller.address = addr(11);
    let before = buy;
    assert_eq!(
        buy_product(&mut buy),
        Err(InstructionError::Marketplace(MarketplaceError::InvalidSeller))
    );
    assert_eq!(buy, before);
    let mut buy = purchase(&init, &list, 5000);
    buy.treasury.address = addr(12);
    assert_eq!(
        buy_product(&mut buy),
        Err(InstructionError::Marketplace(MarketplaceError::InvalidTreasury))
    );
}

#[test]
fn buy_product_rejects_insufficient_funds() {
    let (init, list) = listed_with_fee(5, 1000);
    let mut buy = purchase(&init, &list, 999);
    let before = buy;
    assert_eq!(buy_product(&mut buy), Err(InstructionError::InsufficientFunds));
    assert_eq!(buy, before);
}

#[test]
fn buy_product_exact_funds() {
    let (init, list) = listed_with_fee(5, 1000);
    let mut buy = purchase(&init, &list, 1000);
    assert_eq!(buy_product(&mut buy), Ok(Settlement { seller_amount: 950, fee: 50 }));
    assert_eq!(buy.buyer.lamports, 0);
    assert_eq!(buy.seller.lamports, 950);
    assert_eq!(buy.treasury.lamports, 50);
}

#[test]
fn buy_product_rejects_bad_custody() {
    let (init, list) = listed_with_fee(5, 1000);
    let mut buy = purchase(&init, &list, 5000);
    buy.escrow_token_account = None;
    assert_eq!(buy_product(&mut buy), Err(InstructionError::AccountNotInitialized));
    let mut buy = purchase(&init, &list, 5000);
    let mut escrow = buy.escrow_token_account.unwrap();
    escrow.owner = addr(SELLER);
    buy.escrow_token_account = Some(escrow);
    assert_eq!(
        buy_product(&mut buy),
        Err(InstructionError::Marketplace(MarketplaceError::InvalidSeller))
    );
    let mut buy = purchase(&init, &list, 5000);
    let mut escrow = buy.escrow_token_account.unwrap();
    escrow.address = addr(13);
    buy.escrow_token_account = Some(escrow);
    assert_eq!(buy_product(&mut buy), Err(InstructionError::ConstraintAddress));
    let mut buy = purchase(&init, &list, 5000);
    let mut escrow = buy.escrow_token_account.unwrap();
    escrow.amount = 2;
    buy.escrow_token_account = Some(escrow);
    assert_eq!(buy_product(&mut buy), Err(InstructionError::NonZeroBalanceOnClose));
}

#[test]
fn buy_product_rejects_bad_buyer_holding() {
    let (init, list) = listed_with_fee(5, 1000);
    let mut buy = purchase(&init, &list, 5000);
    buy.buyer_token_account.owner = addr(SELLER);
    assert_eq!(buy_product(&mut buy), Err(InstructionError::ConstraintTokenOwner));
    let mut buy = purchase(&init, &list, 5000);
    buy.buyer_token_account.mint = addr(MINT + 1);
    assert_eq!(buy_product(&mut buy), Err(InstructionError::ConstraintTokenMint));
}

#[test]
fn buy_product_rejects_custody_as_buyer_holding() {
    let (init, list) = listed_with_fee(5, 1000);
    let mut buy = purchase(&init, &list, 5000);
    buy.buyer_token_account.address = list.escrow_address;
    let before = buy;
    assert_eq!(buy_product(&mut buy), Err(InstructionError::DuplicateAccount));
    assert_eq!(buy, before);
}

#[test]
fn seller_as_treasury_settles() {
    let mut init = fresh_initialize();
    init.treasury_account = addr(SELLER);
    initialize(&mut init, 5).unwrap();
    let mut list = fresh_listing();
    list_product(&mut list, 1000).unwrap();
    let mut buy = purchase(&init, &list, 5000);
    buy.treasury = Wallet { address: addr(SELLER), lamports: 100 };
    buy.seller.lamports = 100;
    assert_eq!(buy_product(&mut buy), Ok(Settlement { seller_amount: 950, fee: 50 }));
    assert_eq!(buy.buyer.lamports, 4000);
    assert_eq!(buy.seller.lamports, 1100);
    assert_eq!(buy.treasury.lamports, 1100);
    assert_eq!(buy.buyer_token_account.amount, 1);
    assert!(buy.listing.unwrap().is_sold);
}

#[test]
fn seller_buying_own_listing_needs_the_seller_amount_first() {
    let (init, list) = listed_with_fee(5, 1000);
    for held in [100u64, 500, 949] {
        let mut buy = purchase(&init, &list, held);
        buy.buyer.address = addr(SELLER);
        buy.seller.lamports = held;
        buy.buyer_token_account.owner = addr(SELLER);
        let before = buy;
        assert_eq!(buy_product(&mut buy), Err(InstructionError::InsufficientFunds));
        assert_eq!(buy, before);
    }
}

#[test]
fn seller_buying_own_listing_pays_the_fee() {
    let (init, list) = listed_with_fee(5, 1000);
    let mut buy = purchase(&init, &list, 950);
    buy.buyer.address = addr(SELLER);
    buy.seller.lamports = 950;
    buy.buyer_token_account.owner = addr(SELLER);
    assert_eq!(buy_product(&mut buy), Ok(Settlement { seller_amount: 950, fee: 50 }));
    assert_eq!(buy.buyer.lamports, 900);
    assert_eq!(buy.seller.lamports, 900);
    assert_eq!(buy.treasury.lamports, 50);
}

#[test]
fn buyer_as_treasury_needs_the_fee_after_paying_the_seller() {
    let (init, list) = listed_with_fee(5, 1000);
    let mut buy = purchase(&init, &list, 960);
    buy.buyer.address = addr(TREASURY);
    buy.treasury.lamports = 960;
    buy.buyer_token_account.owner = addr(TREASURY);
    let before = buy;
    assert_eq!(buy_product(&mut buy), Err(InstructionError::InsufficientFunds));
    assert_eq!(buy, before);
}

#[test]
fn buyer_as_treasury_settles() {
    let (init, list) = listed_with_fee(5, 1000);
    let mut buy = purchase(&init, &list, 0);
    buy.buyer.address = addr(TREASURY);
    buy.buyer.lamports = 1000;
    buy.treasury.lamports = 1000;
    buy.buyer_token_account.owner = addr(TREASURY);
    assert_eq!(buy_product(&mut buy), Ok(Settlement { seller_amount: 950, fee: 50 }));
    assert_eq!(buy.buyer.lamports, 50);
    assert_eq!(buy.treasury.lamports, 50);
    assert_eq!(buy.seller.lamports, 950);
}

#[test]
fn buy_product_rejects_balance_overflow() {
    let (init, list) = listed_with_fee(5, 1000);
    let mut buy = purchase(&init, &list, 5000);
    buy.seller.lamports = u64::MAX - 949;
    assert_eq!(buy_product(&mut buy), Err(InstructionError::ArithmeticOverflow));
}

#[test]
fn buy_product_rejects_missing_records() {
    let (init, list) = listed_with_fee(5, 1000);
    let mut buy = purchase(&init, &list, 5000);
    buy.listing = None;
    assert_eq!(buy_product(&mut buy), Err(InstructionError::AccountNotInitialized));
    let mut buy = purchase(&init, &list, 5000);
    buy.marketplace = None;
    assert_eq!(buy_product(&mut buy), Err(InstructionError::AccountNotInitialized));
    let mut buy = purchase(&init, &list, 5000);
    buy.listing_address = addr(8);
    assert_eq!(buy_product(&mut buy), Err(InstructionError::ConstraintSeeds));
}

#[test]
fn buy_product_rejects_zero_price() {
    let (init, list) = listed_with_fee(5, 1000);
    let mut buy = purchase(&init, &list, 5000);
    let mut listing = buy.listing.unwrap();
    listing.price = 0;
    buy.listing = Some(listing);
    assert_eq!(
        buy_product(&mut buy),
        Err(InstructionError::Marketplace(MarketplaceError::InvalidPrice))
    );
}

#[test]
fn escrow_address_matches_associated_token_program() {
    for n in [0u8, 1, 5, 42, 128, 200, 255] {
        let mint = addr(n);
        let owners = [listing_address(&mint).unwrap(), addr(n.wrapping_add(1)), addr(SELLER)];
        for owner in owners {
            let expected = anchor_spl::associated_token::get_associated_token_address(
                &Pubkey::new_from_array(owner.bytes),
                &Pubkey::new_from_array(mint.bytes),
            );
            assert_eq!(escrow_address(&owner, &mint).unwrap().bytes, expected.to_bytes());
        }
    }
}

#[test]
fn program_id_matches_its_base58_form() {
    let id = Pubkey::from_str("FSoNXDpgsYZkp3VtPjPWPR2cQ5PMPt16SmLFm75A7FYh").unwrap();
    assert_eq!(program_id().bytes, id.to_bytes());
    let (pda, _) = Pubkey::find_program_address(&[b"marketplace"], &id);
    assert_eq!(marketplace_address().unwrap().bytes, pda.to_bytes());
}
