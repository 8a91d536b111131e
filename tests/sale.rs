use anchor_lang::prelude::Pubkey;
use reptilx_sale::{
    buy, initialize_config, pause, reset_config, settle, unpause, update_price, Buy, Config,
    CustomError, InitializeConfig, Key, ResetConfig, TokenAccountState, UpdatePrice, PRICE_SCALE,
};

fn k(b: u8) -> Key {
    Key::new([b; 32])
}

fn owner() -> Key {
    k(1)
}

fn recipient() -> Key {
    k(2)
}

fn config(price: u64) -> Config {
    Config { price_per_token: price, seller: owner(), sol_recipient: recipient(), paused: false }
}

fn ata_of(wallet: Key, mint: Key) -> Key {
    let a = anchor_spl::associated_token::get_associated_token_address(
        &Pubkey::new_from_array(wallet.bytes),
        &Pubkey::new_from_array(mint.bytes),
    );
    Key::new(a.to_bytes())
}

// Mint 3, authority 4, custody 5, buyer 6, buyer's token account 7 (already
// a token account, owned by program 8).
fn request(price: u64) -> Buy {
    Buy {
        seller_spl_account: TokenAccountState { address: k(5), mint: k(3), owner: k(4) },
        buyer_wallet: k(6),
        buyer_spl_account: k(7),
        buyer_spl_account_owner: k(8),
        sol_recipient: recipient(),
        pda_authority: k(4),
        pda_authority_bump: 254,
        config: config(price),
        mint: k(3),
    }
}

#[test]
fn initialize_creates_unpaused_record_owned_by_caller() {
    let mut a = InitializeConfig { config: None, seller: owner() };
    assert_eq!(initialize_config(&mut a, 7, recipient()), Ok(()));
    let c = a.config.unwrap();
    assert_eq!(c.price_per_token, 7);
    assert_eq!(c.seller, owner());
    assert_eq!(c.sol_recipient, recipient());
    assert!(!c.paused);
}

#[test]
fn initialize_keeps_an_existing_record() {
    let mut existing = config(9);
    existing.paused = true;
    let mut a = InitializeConfig { config: Some(existing), seller: k(9) };
    assert_eq!(initialize_config(&mut a, 1, k(9)), Ok(()));
    let c = a.config.unwrap();
    assert_eq!(c.seller, owner());
    assert_eq!(c.price_per_token, 9);
    assert!(c.paused);
}

#[test]
fn owner_updates_price() {
    let mut a = UpdatePrice { config: config(5), seller: owner() };
    assert_eq!(update_price(&mut a, 11), Ok(()));
    assert_eq!(a.config.price_per_token, 11);
    assert_eq!(a.config.sol_recipient, recipient());
}

#[test]
fn non_owner_is_refused_and_changes_nothing() {
    let mut r = ResetConfig { config: config(5), seller: k(9) };
    r.config.paused = true;
    assert_eq!(reset_config(&mut r, 1, k(9)), Err(CustomError::Unauthorized));
    assert_eq!(r.config.price_per_token, 5);
    assert_eq!(r.config.sol_recipient, recipient());
    assert!(r.config.paused);

    let mut u = UpdatePrice { config: config(5), seller: k(9) };
    assert_eq!(update_price(&mut u, 1), Err(CustomError::Unauthorized));
    assert_eq!(u.config.price_per_token, 5);
    assert_eq!(pause(&mut u), Err(CustomError::Unauthorized));
    assert!(!u.config.paused);
    u.config.paused = true;
    assert_eq!(unpause(&mut u), Err(CustomError::Unauthorized));
    assert!(u.config.paused);
}

#[test]
fn owner_pauses_and_unpauses() {
    let mut u = UpdatePrice { config: config(5), seller: owner() };
    assert_eq!(pause(&mut u), Ok(()));
    assert!(u.config.paused);
    assert_eq!(unpause(&mut u), Ok(()));
    assert!(!u.config.paused);
}

#[test]
fn reset_clears_pause_and_is_idempotent() {
    let mut r = ResetConfig { config: config(5), seller: owner() };
    r.config.paused = true;
    assert_eq!(reset_config(&mut r, 42, k(9)), Ok(()));
    let once = r.config;
    assert!(!once.paused);
    assert_eq!(once.price_per_token, 42);
    assert_eq!(once.sol_recipient, k(9));
    assert_eq!(once.seller, owner());
    assert_eq!(reset_config(&mut r, 42, k(9)), Ok(()));
    assert_eq!(r.config.price_per_token, once.price_per_token);
    assert_eq!(r.config.sol_recipient, once.sol_recipient);
    assert_eq!(r.config.seller, once.seller);
    assert_eq!(r.config.paused, once.paused);
}

#[test]
fn payment_at_unit_price() {
    let s = buy(&request(1_000_000_000), 5).unwrap();
    assert_eq!(s.payment.lamports, 5);
    assert_eq!(s.token_transfer.amount, 5);
    assert_eq!(s.token_transfer.from, k(5));
    assert_eq!(s.token_transfer.to, k(7));
    assert_eq!(s.token_transfer.authority, k(4));
    assert_eq!(s.token_transfer.authority_bump, 254);
    assert_eq!(s.payment.from, k(6));
    assert_eq!(s.payment.to, recipient());
    assert!(!s.create_receiving_account);
}

#[test]
fn payment_truncates() {
    let s = buy(&request(3), 1).unwrap();
    assert_eq!(s.payment.lamports, 0);
    let s = buy(&request(1_500_000_000), 3).unwrap();
    assert_eq!(s.payment.lamports, 4);
    assert_eq!(PRICE_SCALE, 1_000_000_000);
}

#[test]
fn payment_at_largest_product() {
    let s = buy(&request(1), u64::MAX).unwrap();
    assert_eq!(s.payment.lamports, u64::MAX / 1_000_000_000);
}

#[test]
fn overflow_is_refused() {
    let a = request(2);
    assert_eq!(buy(&a, u64::MAX).unwrap_err(), CustomError::Overflow);
    assert_eq!(a.config.price_per_token, 2);
    assert!(!a.config.paused);
}

#[test]
fn pause_then_buy_is_refused() {
    let mut u = UpdatePrice { config: config(1_000_000_000), seller: owner() };
    assert_eq!(pause(&mut u), Ok(()));
    let mut a = request(1_000_000_000);
    a.config = u.config;
    assert_eq!(buy(&a, 5).unwrap_err(), CustomError::SalePaused);
}

#[test]
fn each_check_has_its_error() {
    let mut a = request(10);
    a.seller_spl_account.mint = k(9);
    assert_eq!(buy(&a, 1).unwrap_err(), CustomError::InvalidMint);

    let mut a = request(10);
    a.seller_spl_account.owner = k(9);
    assert_eq!(buy(&a, 1).unwrap_err(), CustomError::InvalidAuthority);

    let mut a = request(10);
    a.sol_recipient = k(9);
    assert_eq!(buy(&a, 1).unwrap_err(), CustomError::InvalidSolRecipient);

    let a = request(10);
    assert_eq!(buy(&a, 0).unwrap_err(), CustomError::InvalidAmount);
}

#[test]
fn checks_come_in_order() {
    let mut a = request(10);
    a.config.paused = true;
    a.seller_spl_account.mint = k(9);
    a.sol_recipient = k(9);
    assert_eq!(buy(&a, 0).unwrap_err(), CustomError::SalePaused);
    a.config.paused = false;
    assert_eq!(buy(&a, 0).unwrap_err(), CustomError::InvalidMint);
}

#[test]
fn uninitialized_receiving_account_at_canonical_address_is_created() {
    let mut a = request(1_000_000_000);
    a.buyer_spl_account_owner = Key::system_program();
    a.buyer_spl_account = ata_of(a.buyer_wallet, a.mint);
    let s = buy(&a, 2).unwrap();
    assert!(s.create_receiving_account);
    assert_eq!(s.token_transfer.to, a.buyer_spl_account);
    assert_eq!(s.payment.lamports, 2);
}

#[test]
fn uninitialized_receiving_account_elsewhere_is_refused() {
    let mut a = request(1_000_000_000);
    a.buyer_spl_account_owner = Key::system_program();
    a.buyer_spl_account = k(7);
    assert_eq!(buy(&a, 2).unwrap_err(), CustomError::InvalidATA);
    a.buyer_spl_account = a.buyer_wallet;
    assert_eq!(buy(&a, 2).unwrap_err(), CustomError::InvalidATA);
    a.buyer_spl_account = a.mint;
    assert_eq!(buy(&a, 2).unwrap_err(), CustomError::InvalidATA);
}

#[test]
fn initialized_receiving_account_needs_no_canonical_address() {
    let a = request(1_000_000_000);
    let s = buy(&a, 2).unwrap();
    assert!(!s.create_receiving_account);
}

#[test]
fn settle_uses_the_given_canonical_address() {
    let mut a = request(1_000_000_000);
    a.buyer_spl_account_owner = Key::system_program();
    assert!(settle(&a, 2, &k(7)).unwrap().create_receiving_account);
    assert_eq!(settle(&a, 2, &k(9)).unwrap_err(), CustomError::InvalidATA);
    a.config.paused = true;
    assert_eq!(settle(&a, 2, &k(9)).unwrap_err(), CustomError::SalePaused);
}

#[test]
fn error_messages() {
    assert_eq!(CustomError::SalePaused.message(), "Token sale is currently paused.");
    assert_eq!(
        CustomError::InvalidATA.message(),
        "Associated Token Account does not match expected address."
    );
}
