use vstd::prelude::*;

use crate::error::CustomError;
use crate::key::Key;

verus! {

/// The sale's persistent record.
#[derive(Clone, Copy, Debug)]
pub struct Config {
    /// Lamports owed for 10^9 base units of the sold token.
    pub price_per_token: u64,
    /// The owner: the only identity that may change the record.
    pub seller: Key,
    /// Where payments go.
    pub sol_recipient: Key,
    /// While set, no sale settles.
    pub paused: bool,
}

/// Accounts of the initialization request. `config` is `None` while the
/// record does not exist yet.
#[derive(Clone, Copy, Debug)]
pub struct InitializeConfig {
    pub config: Option<Config>,
    pub seller: Key,
}

/// Accounts of a reset request.
#[derive(Clone, Copy, Debug)]
pub struct ResetConfig {
    pub config: Config,
    pub seller: Key,
}

/// Accounts of a reprice, pause or unpause request.
#[derive(Clone, Copy, Debug)]
pub struct UpdatePrice {
    pub config: Config,
    pub seller: Key,
}

/// Whether `signer` may change `c`.
pub open spec fn is_owner(c: Config, signer: Key) -> bool {
    signer@ == c.seller@
}

/// The record that initialization creates.
pub open spec fn initialized(seller: Key, price: u64, recipient: Key) -> Config {
    Config { price_per_token: price, seller, sol_recipient: recipient, paused: false }
}

/// The record after an authorized reset.
pub open spec fn after_reset(c: Config, price: u64, recipient: Key) -> Config {
    Config { price_per_token: price, sol_recipient: recipient, paused: false, ..c }
}

/// The record after an authorized reprice.
pub open spec fn after_update_price(c: Config, price: u64) -> Config {
    Config { price_per_token: price, ..c }
}

/// The record after an authorized pause (`true`) or unpause (`false`).
pub open spec fn with_paused(c: Config, paused: bool) -> Config {
    Config { paused, ..c }
}

/// Creates the record if it does not exist, owned by the caller and not
/// paused. An existing record is left as it is, so its owner never changes.
pub fn initialize_config(accounts: &mut InitializeConfig, price_per_token: u64, sol_recipient: Key)
    -> (r: Result<(), CustomError>)
    ensures
        r is Ok,
        final(accounts).seller == old(accounts).seller,
        old(accounts).config is None ==> final(accounts).config == Some(
            initialized(old(accounts).seller, price_per_token, sol_recipient),
        ),
        old(accounts).config is Some ==> final(accounts).config == old(accounts).config,
{
    if accounts.config.is_none() {
        accounts.config = Some(
            Config {
                price_per_token,
                seller: accounts.seller,
                sol_recipient,
                paused: false,
            },
        );
    }
    Ok(())
}

/// Sets price and recipient and lifts a pause; the owner only.
pub fn reset_config(accounts: &mut ResetConfig, new_price: u64, new_recipient: Key) -> (r: Result<
    (),
    CustomError,
>)
    ensures
        final(accounts).seller == old(accounts).seller,
        is_owner(old(accounts).config, old(accounts).seller) ==> r is Ok && final(accounts).config
            == after_reset(old(accounts).config, new_price, new_recipient),
        !is_owner(old(accounts).config, old(accounts).seller) ==> r == Err::<(), CustomError>(
            CustomError::Unauthorized,
        ) && final(accounts).config == old(accounts).config,
{
    if !accounts.seller.same(&accounts.config.seller) {
        return Err(CustomError::Unauthorized);
    }
    accounts.config.price_per_token = new_price;
    accounts.config.sol_recipient = new_recipient;
    accounts.config.paused = false;
    Ok(())
}

/// Sets the price; the owner only.
pub fn update_price(accounts: &mut UpdatePrice, new_price: u64) -> (r: Result<(), CustomError>)
    ensures
        final(accounts).seller == old(accounts).seller,
        is_owner(old(accounts).config, old(accounts).seller) ==> r is Ok && final(accounts).config
            == after_update_price(old(accounts).config, new_price),
        !is_owner(old(accounts).config, old(accounts).seller) ==> r == Err::<(), CustomError>(
            CustomError::Unauthorized,
        ) && final(accounts).config == old(accounts).config,
{
    if !accounts.seller.same(&accounts.config.seller) {
        return Err(CustomError::Unauthorized);
    }
    accounts.config.price_per_token = new_price;
    Ok(())
}

/// Stops settlement; the owner only.
pub fn pause(accounts: &mut UpdatePrice) -> (r: Result<(), CustomError>)
    ensures
        final(accounts).seller == old(accounts).seller,
        is_owner(old(accounts).config, old(accounts).seller) ==> r is Ok && final(accounts).config
            == with_paused(old(accounts).config, true),
        !is_owner(old(accounts).config, old(accounts).seller) ==> r == Err::<(), CustomError>(
            CustomError::Unauthorized,
        ) && final(accounts).config == old(accounts).config,
{
    if !accounts.seller.same(&accounts.config.seller) {
        return Err(CustomError::Unauthorized);
    }
    accounts.config.paused = true;
    Ok(())
}

/// Resumes settlement; the owner only.
pub fn unpause(accounts: &mut UpdatePrice) -> (r: Result<(), CustomError>)
    ensures
        final(accounts).seller == old(accounts).seller,
        is_owner(old(accounts).config, old(accounts).seller) ==> r is Ok && final(accounts).config
            == with_paused(old(accounts).config, false),
        !is_owner(old(accounts).config, old(accounts).seller) ==> r == Err::<(), CustomError>(
            CustomError::Unauthorized,
        ) && final(accounts).config == old(accounts).config,
{
    if !accounts.seller.same(&accounts.config.seller) {
        return Err(CustomError::Unauthorized);
    }
    accounts.config.paused = false;
    Ok(())
}

/// A reset leaves the sale unpaused whatever it was, keeps the owner, and
/// applying it again with the same arguments changes nothing more.
pub proof fn lemma_reset_unpauses_and_is_idempotent(
    c: Config,
    owner: Key,
    price: u64,
    recipient: Key,
)
    requires
        is_owner(c, owner),
    ensures
        is_owner(after_reset(c, price, recipient), owner),
        after_reset(c, price, recipient).paused == false,
        after_reset(c, price, recipient).seller == c.seller,
        after_reset(after_reset(c, price, recipient), price, recipient) == after_reset(
            c,
            price,
            recipient,
        ),
{
}

} // verus!
