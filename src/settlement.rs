use vstd::prelude::*;

use anchor_lang::prelude::Pubkey;

use crate::config::{is_owner, with_paused, Config};
use crate::error::CustomError;
use crate::key::{zero_key, Key};

verus! {

/// Base units of the sold token that one `price_per_token` pays for: the
/// price is fixed-point with nine fractional digits.
pub const PRICE_SCALE: u64 = 1_000_000_000;

/// What settlement reads of the custody token account.
#[derive(Clone, Copy, Debug)]
pub struct TokenAccountState {
    /// The account's address.
    pub address: Key,
    /// The token it holds.
    pub mint: Key,
    /// The identity that may move its tokens.
    pub owner: Key,
}

/// Accounts of a buy request, as plain values.
#[derive(Clone, Copy, Debug)]
pub struct Buy {
    /// Custody account that the tokens leave.
    pub seller_spl_account: TokenAccountState,
    /// The buyer, who signs the request and pays.
    pub buyer_wallet: Key,
    /// Address of the account that receives the tokens.
    pub buyer_spl_account: Key,
    /// Program that owns that account: the system program while it does not
    /// hold tokens yet.
    pub buyer_spl_account_owner: Key,
    /// Account presented as the payment's destination.
    pub sol_recipient: Key,
    /// The program's derived signing authority.
    pub pda_authority: Key,
    /// The bump seed that completes the authority's derivation.
    pub pda_authority_bump: u8,
    /// The sale's record.
    pub config: Config,
    /// The token on sale.
    pub mint: Key,
}

/// First leg: tokens out of custody, signed by the derived authority.
#[derive(Clone, Copy, Debug)]
pub struct TokenTransfer {
    pub from: Key,
    pub to: Key,
    pub authority: Key,
    pub authority_bump: u8,
    pub amount: u64,
}

/// Second leg: lamports from the buyer to the recipient.
#[derive(Clone, Copy, Debug)]
pub struct PaymentTransfer {
    pub from: Key,
    pub to: Key,
    pub lamports: u64,
}

/// What an accepted buy request carries out, in this order: create the
/// receiving account if asked, then the token leg, then the payment leg.
#[derive(Clone, Copy, Debug)]
pub struct Settlement {
    pub create_receiving_account: bool,
    pub token_transfer: TokenTransfer,
    pub payment: PaymentTransfer,
}

/// The canonical associated token account address of a wallet and a mint.
pub uninterp spec fn associated_address(wallet: Seq<u8>, mint: Seq<u8>) -> Seq<u8>;

/// Relies on anchor_spl::associated_token::get_associated_token_address: the
/// address derived from the wallet and the mint under the token program, the
/// same for the same two keys. Its search for a bump seed panics only if no
/// seed of 256 gives an address off the curve, which the derivation treats as
/// not occurring.
#[verifier::external_body]
fn associated_token_address(wallet: &Key, mint: &Key) -> (r: Key)
    ensures
        r@ == associated_address(wallet@, mint@),
{
    let address = anchor_spl::associated_token::get_associated_token_address(
        &Pubkey::new_from_array(wallet.bytes),
        &Pubkey::new_from_array(mint.bytes),
    );
    Key { bytes: address.to_bytes() }
}

/// Lamports owed for `units` at `price`, rounded down.
pub open spec fn payment_for(units: u64, price: u64) -> int {
    (units as int * price as int) / (PRICE_SCALE as int)
}

/// Whether the receiving account must be created first.
pub open spec fn needs_provisioning(a: Buy) -> bool {
    a.buyer_spl_account_owner@ == zero_key()
}

/// The checks that do not look at the receiving account, in the order in
/// which they are made; `None` when all pass.
pub open spec fn precheck(a: Buy, units: u64) -> Option<CustomError> {
    if a.config.paused {
        Some(CustomError::SalePaused)
    } else if a.seller_spl_account.mint@ != a.mint@ {
        Some(CustomError::InvalidMint)
    } else if a.seller_spl_account.owner@ != a.pda_authority@ {
        Some(CustomError::InvalidAuthority)
    } else if a.sol_recipient@ != a.config.sol_recipient@ {
        Some(CustomError::InvalidSolRecipient)
    } else if units == 0 {
        Some(CustomError::InvalidAmount)
    } else if units as int * a.config.price_per_token as int > u64::MAX as int {
        Some(CustomError::Overflow)
    } else {
        None
    }
}

/// The plan of an accepted request.
pub open spec fn settlement_of(a: Buy, units: u64) -> Settlement {
    Settlement {
        create_receiving_account: needs_provisioning(a),
        token_transfer: TokenTransfer {
            from: a.seller_spl_account.address,
            to: a.buyer_spl_account,
            authority: a.pda_authority,
            authority_bump: a.pda_authority_bump,
            amount: units,
        },
        payment: PaymentTransfer {
            from: a.buyer_wallet,
            to: a.sol_recipient,
            lamports: payment_for(units, a.config.price_per_token) as u64,
        },
    }
}

/// The outcome of a buy request, given the canonical receiving address.
pub open spec fn buy_outcome(a: Buy, units: u64, canonical: Seq<u8>) -> Result<
    Settlement,
    CustomError,
> {
    match precheck(a, units) {
        Some(e) => Err(e),
        None => if needs_provisioning(a) && canonical != a.buyer_spl_account@ {
            Err(CustomError::InvalidATA)
        } else {
            Ok(settlement_of(a, units))
        },
    }
}

/// Decides a buy request given the canonical address of the buyer's
/// receiving account, which is only looked at when that account has to be
/// created.
pub fn settle(accounts: &Buy, amount_of_spl: u64, canonical_receiving: &Key) -> (r: Result<
    Settlement,
    CustomError,
>)
    ensures
        r == buy_outcome(*accounts, amount_of_spl, canonical_receiving@),
{
    if accounts.config.paused {
        return Err(CustomError::SalePaused);
    }
    if !accounts.seller_spl_account.mint.same(&accounts.mint) {
        return Err(CustomError::InvalidMint);
    }
    if !accounts.seller_spl_account.owner.same(&accounts.pda_authority) {
        return Err(CustomError::InvalidAuthority);
    }
    if !accounts.sol_recipient.same(&accounts.config.sol_recipient) {
        return Err(CustomError::InvalidSolRecipient);
    }
    if amount_of_spl == 0 {
        return Err(CustomError::InvalidAmount);
    }
    let total = match amount_of_spl.checked_mul(accounts.config.price_per_token) {
        Some(t) => t,
        None => return Err(CustomError::Overflow),
    };
    let total_sol = total / PRICE_SCALE;
    let create = accounts.buyer_spl_account_owner.same(&Key::system_program());
    if create && !canonical_receiving.same(&accounts.buyer_spl_account) {
        return Err(CustomError::InvalidATA);
    }
    Ok(
        Settlement {
            create_receiving_account: create,
            token_transfer: TokenTransfer {
                from: accounts.seller_spl_account.address,
                to: accounts.buyer_spl_account,
                authority: accounts.pda_authority,
                authority_bump: accounts.pda_authority_bump,
                amount: amount_of_spl,
            },
            payment: PaymentTransfer {
                from: accounts.buyer_wallet,
                to: accounts.sol_recipient,
                lamports: total_sol,
            },
        },
    )
}

/// Decides a buy request: checks the sale and the accounts, prices the
/// request, and plans the two transfers. The canonical receiving address is
/// derived only when the receiving account has to be created.
pub fn buy(accounts: &Buy, amount_of_spl: u64) -> (r: Result<Settlement, CustomError>)
    ensures
        r == buy_outcome(
            *accounts,
            amount_of_spl,
            associated_address(accounts.buyer_wallet@, accounts.mint@),
        ),
{
    let canonical = if accounts.buyer_spl_account_owner.same(&Key::system_program()) {
        associated_token_address(&accounts.buyer_wallet, &accounts.mint)
    } else {
        accounts.buyer_spl_account
    };
    settle(accounts, amount_of_spl, &canonical)
}

/// With a positive amount, and a receiving account that either holds tokens
/// already or sits at the canonical address, a buy succeeds exactly when the
/// sale is not paused, the custody account holds the mint under the derived
/// authority, the payout account is the configured one, and the price times
/// the amount fits in 64 bits.
pub proof fn lemma_buy_succeeds_iff(a: Buy, units: u64, canonical: Seq<u8>)
    requires
        units > 0,
        needs_provisioning(a) ==> canonical == a.buyer_spl_account@,
    ensures
        buy_outcome(a, units, canonical) is Ok <==> (!a.config.paused && a.seller_spl_account.mint@
            == a.mint@ && a.seller_spl_account.owner@ == a.pda_authority@ && a.sol_recipient@
            == a.config.sol_recipient@ && units as int * a.config.price_per_token as int
            <= u64::MAX as int),
{
}

/// The payment of an accepted request is the amount times the price divided
/// by the scale, rounded down: the remainder is dropped, never an error.
pub proof fn lemma_payment_rounds_down(a: Buy, units: u64, canonical: Seq<u8>)
    requires
        buy_outcome(a, units, canonical) is Ok,
    ensures
        ({
            let lamports = buy_outcome(a, units, canonical)->Ok_0.payment.lamports as int;
            let product = units as int * a.config.price_per_token as int;
            &&& lamports == payment_for(units, a.config.price_per_token)
            &&& lamports * PRICE_SCALE <= product
            &&& product < (lamports + 1) * PRICE_SCALE
        }),
{
    let x = units as int;
    let y = a.config.price_per_token as int;
    let product = x * y;
    assert(product >= 0) by (nonlinear_arith)
        requires
            x >= 0,
            y >= 0,
            product == x * y,
    ;
    assert(product / (PRICE_SCALE as int) <= product) by (nonlinear_arith)
        requires
            product >= 0,
    ;
    let q = product / (PRICE_SCALE as int);
    assert(q * PRICE_SCALE <= product && product < (q + 1) * PRICE_SCALE) by (nonlinear_arith)
        requires
            q == product / (PRICE_SCALE as int),
            product >= 0,
    ;
}

/// After the owner pauses the sale, every buy request against the paused
/// record fails with `SalePaused`, whatever its accounts and amount.
pub proof fn lemma_paused_sale_refuses(
    c: Config,
    owner: Key,
    a: Buy,
    units: u64,
    canonical: Seq<u8>,
)
    requires
        is_owner(c, owner),
        a.config == with_paused(c, true),
    ensures
        buy_outcome(a, units, canonical) == Err::<Settlement, CustomError>(CustomError::SalePaused),
{
}

/// The receiving account is created only when it does not hold tokens yet;
/// there, an address other than the canonical one is refused with
/// `InvalidATA` once the other checks pass, and no plan is made.
pub proof fn lemma_provisioning_only_when_uninitialized(a: Buy, units: u64, canonical: Seq<u8>)
    ensures
        buy_outcome(a, units, canonical) is Ok ==> buy_outcome(
            a,
            units,
            canonical,
        )->Ok_0.create_receiving_account == needs_provisioning(a),
        !needs_provisioning(a) ==> buy_outcome(a, units, canonical) != Err::<
            Settlement,
            CustomError,
        >(CustomError::InvalidATA),
        needs_provisioning(a) && canonical != a.buyer_spl_account@ ==> buy_outcome(
            a,
            units,
            canonical,
        ) is Err,
        needs_provisioning(a) && canonical != a.buyer_spl_account@ && precheck(a, units) is None
            ==> buy_outcome(a, units, canonical) == Err::<Settlement, CustomError>(
            CustomError::InvalidATA,
        ),
{
}

} // verus!
