use vstd::prelude::*;
use crate::error::VoteError;
use crate::key::Key;
use crate::treasury::TreasuryConfig;

verus! {

/// An account holding collateral.
#[derive(Clone, Copy, Debug, PartialEq, Eq, Structural)]
pub struct CollateralAccount {
    pub key: Key,
    pub balance: u64,
}

/// A balance of one token type, held for an owner.
#[derive(Clone, Copy, Debug, PartialEq, Eq, Structural)]
pub struct TokenAccount {
    pub owner: Key,
    pub mint: Key,
    pub amount: u64,
}

/// A token type and the number of its units in existence.
#[derive(Clone, Copy, Debug, PartialEq, Eq, Structural)]
pub struct MintAccount {
    pub key: Key,
    pub supply: u64,
}

/// Why a purchase did not take place.
#[derive(Clone, Copy, Debug, PartialEq, Eq, Structural)]
pub enum PurchaseError {
    /// A rule of the treasury refused it.
    Rejected(VoteError),
    /// The buyer's collateral account holds less than the price.
    InsufficientCollateral,
    /// A balance or the token supply would leave the range of `u64`.
    BalanceOverflow,
}

/// The accounts a purchase touches, in the state they are in.
#[derive(Clone, Copy, Debug, PartialEq, Eq, Structural)]
pub struct PurchaseAccounts {
    pub source: CollateralAccount,
    pub vault: CollateralAccount,
    pub destination: TokenAccount,
    pub mint: MintAccount,
}

/// The first rule of the treasury that a purchase by `buyer` breaks, if any.
pub open spec fn purchase_rule_error(config: TreasuryConfig, buyer: Key, a: PurchaseAccounts) -> Option<VoteError> {
    if a.destination.owner != buyer {
        Some(VoteError::InvalidTokenAccountOwner)
    } else if a.destination.mint != config.token_type {
        Some(VoteError::TokenMintMismatch)
    } else if a.mint.key != config.token_type {
        Some(VoteError::InvalidMint)
    } else if a.source.key != buyer || a.vault.key != config.collateral_vault {
        Some(VoteError::UnauthorizedAccess)
    } else {
        None
    }
}

/// The accounts after a completed purchase: the price moved from the buyer's
/// collateral to the vault, and the tokens of one purchase minted to the
/// buyer's token account.
pub open spec fn settled(config: TreasuryConfig, a: PurchaseAccounts) -> PurchaseAccounts {
    PurchaseAccounts {
        source: CollateralAccount { balance: (a.source.balance - config.sol_price) as u64, ..a.source },
        vault: CollateralAccount { balance: (a.vault.balance + config.sol_price) as u64, ..a.vault },
        destination: TokenAccount {
            amount: (a.destination.amount + config.tokens_per_purchase) as u64,
            ..a.destination
        },
        mint: MintAccount { supply: (a.mint.supply + config.tokens_per_purchase) as u64, ..a.mint },
    }
}

/// What `buy_tokens` does: the outcome and the accounts afterwards.
pub open spec fn buy_tokens_spec(config: TreasuryConfig, buyer: Key, a: PurchaseAccounts) -> (
    Result<(), PurchaseError>,
    PurchaseAccounts,
) {
    match purchase_rule_error(config, buyer, a) {
        Some(e) => (Err(PurchaseError::Rejected(e)), a),
        None => if a.source.balance < config.sol_price {
            (Err(PurchaseError::InsufficientCollateral), a)
        } else if a.vault.balance + config.sol_price > u64::MAX || a.destination.amount
            + config.tokens_per_purchase > u64::MAX || a.mint.supply + config.tokens_per_purchase
            > u64::MAX {
            (Err(PurchaseError::BalanceOverflow), a)
        } else {
            (Ok(()), settled(config, a))
        },
    }
}

/// The balances after taking the price from `source` into `vault`, or why
/// that cannot be done.
fn stage_debit(source: u64, vault: u64, price: u64) -> (r: Result<(u64, u64), PurchaseError>)
    ensures
        source < price ==> r == Err::<(u64, u64), PurchaseError>(PurchaseError::InsufficientCollateral),
        source >= price && vault + price > u64::MAX ==> r == Err::<(u64, u64), PurchaseError>(
            PurchaseError::BalanceOverflow,
        ),
        source >= price && vault + price <= u64::MAX ==> r == Ok::<(u64, u64), PurchaseError>(
            ((source - price) as u64, (vault + price) as u64),
        ),
{
    if source < price {
        return Err(PurchaseError::InsufficientCollateral);
    }
    match vault.checked_add(price) {
        Some(v) => Ok((source - price, v)),
        None => Err(PurchaseError::BalanceOverflow),
    }
}

/// The token balance and supply after minting `n` units, or why that cannot
/// be done.
fn stage_credit(amount: u64, supply: u64, n: u64) -> (r: Result<(u64, u64), PurchaseError>)
    ensures
        amount + n > u64::MAX || supply + n > u64::MAX ==> r == Err::<(u64, u64), PurchaseError>(
            PurchaseError::BalanceOverflow,
        ),
        amount + n <= u64::MAX && supply + n <= u64::MAX ==> r == Ok::<(u64, u64), PurchaseError>(
            ((amount + n) as u64, (supply + n) as u64),
        ),
{
    match (amount.checked_add(n), supply.checked_add(n)) {
        (Some(a), Some(s)) => Ok((a, s)),
        _ => Err(PurchaseError::BalanceOverflow),
    }
}

/// Sells one purchase of the treasury's token to `buyer`: the price moves
/// from the buyer's collateral into the vault and the tokens are minted to
/// the buyer's token account. Both steps are staged and committed together,
/// so that on any failure every account is left as it was.
pub fn buy_tokens(config: &TreasuryConfig, buyer: Key, accounts: &mut PurchaseAccounts) -> (r: Result<
    (),
    PurchaseError,
>)
    ensures
        (r, *final(accounts)) == buy_tokens_spec(*config, buyer, *old(accounts)),
{
    if !accounts.destination.owner.same(&buyer) {
        return Err(PurchaseError::Rejected(VoteError::InvalidTokenAccountOwner));
    }
    if !accounts.destination.mint.same(&config.token_type) {
        return Err(PurchaseError::Rejected(VoteError::TokenMintMismatch));
    }
    if !accounts.mint.key.same(&config.token_type) {
        return Err(PurchaseError::Rejected(VoteError::InvalidMint));
    }
    if !accounts.source.key.same(&buyer) || !accounts.vault.key.same(&config.collateral_vault) {
        return Err(PurchaseError::Rejected(VoteError::UnauthorizedAccess));
    }
    let (source_after, vault_after) = match stage_debit(
        accounts.source.balance,
        accounts.vault.balance,
        config.sol_price,
    ) {
        Ok(b) => b,
        Err(e) => return Err(e),
    };
    let (amount_after, supply_after) = match stage_credit(
        accounts.destination.amount,
        accounts.mint.supply,
        config.tokens_per_purchase,
    ) {
        Ok(b) => b,
        Err(e) => return Err(e),
    };
    accounts.source.balance = source_after;
    accounts.vault.balance = vault_after;
    accounts.destination.amount = amount_after;
    accounts.mint.supply = supply_after;
    Ok(())
}

/// A purchase either completes, with the vault up by the price and the
/// buyer's tokens up by one purchase, or fails with every account unchanged.
/// Collateral is conserved, and the supply grows exactly as the buyer's
/// balance does.
pub proof fn lemma_purchase_all_or_nothing(config: TreasuryConfig, buyer: Key, a: PurchaseAccounts)
    ensures
        ({
            let (r, b) = buy_tokens_spec(config, buyer, a);
            &&& r is Err ==> b == a
            &&& r is Ok ==> {
                &&& b.vault.balance == a.vault.balance + config.sol_price
                &&& b.destination.amount == a.destination.amount + config.tokens_per_purchase
                &&& b.source.balance + b.vault.balance == a.source.balance + a.vault.balance
                &&& b.mint.supply - a.mint.supply == b.destination.amount - a.destination.amount
                &&& b.destination.owner == a.destination.owner && b.destination.mint == a.destination.mint
            }
        }),
{
}

/// A purchase into a token account of the buyer that holds another token type
/// than the treasury sells fails with `TokenMintMismatch`, every account
/// unchanged.
pub proof fn lemma_purchase_wrong_token(config: TreasuryConfig, buyer: Key, a: PurchaseAccounts)
    requires
        a.destination.owner == buyer,
        a.destination.mint != config.token_type,
    ensures
        buy_tokens_spec(config, buyer, a) == (
            Err::<(), PurchaseError>(PurchaseError::Rejected(VoteError::TokenMintMismatch)),
            a,
        ),
{
}

} // verus!
