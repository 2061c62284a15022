use vote_app::{
    buy_tokens, initialize_treasury, CollateralAccount, Key, MintAccount, PurchaseAccounts, PurchaseError,
    TokenAccount, TreasuryConfig, VoteError,
};

fn key(n: u64) -> Key {
    Key::new(n, n, 0, 0)
}

const ADMIN: u64 = 1;
const VAULT: u64 = 2;
const MINT: u64 = 3;
const BUYER: u64 = 4;
const OTHER_MINT: u64 = 5;

fn config() -> TreasuryConfig {
    TreasuryConfig {
        authority: key(ADMIN),
        collateral_vault: key(VAULT),
        token_type: key(MINT),
        sol_price: 1_000,
        tokens_per_purchase: 50,
    }
}

fn accounts() -> PurchaseAccounts {
    PurchaseAccounts {
        source: CollateralAccount { key: key(BUYER), balance: 5_000 },
        vault: CollateralAccount { key: key(VAULT), balance: 200 },
        destination: TokenAccount { owner: key(BUYER), mint: key(MINT), amount: 7 },
        mint: MintAccount { key: key(MINT), supply: 100 },
    }
}

#[test]
fn treasury_initializes_once() {
    let mut slot: Option<TreasuryConfig> = None;
    assert_eq!(initialize_treasury(&mut slot, key(ADMIN), key(VAULT), key(MINT), 1_000, 50), Ok(()));
    assert_eq!(slot, Some(config()));
    assert_eq!(
        initialize_treasury(&mut slot, key(9), key(9), key(9), 1, 1),
        Err(VoteError::AlreadyInitialized)
    );
    assert_eq!(slot, Some(config()));
}

#[test]
fn price_and_volume_updates_need_authority() {
    let mut c = config();
    assert_eq!(c.update_price(key(BUYER), 1), Err(VoteError::UnauthorizedAccess));
    assert_eq!(c.update_volume(key(BUYER), 1), Err(VoteError::UnauthorizedAccess));
    assert_eq!(c, config());
    assert_eq!(c.update_price(key(ADMIN), 2_000), Ok(()));
    assert_eq!(c.update_volume(key(ADMIN), 80), Ok(()));
    assert_eq!(c.sol_price, 2_000);
    assert_eq!(c.tokens_per_purchase, 80);
    assert_eq!(c.token_type, key(MINT));
}

#[test]
fn purchase_moves_both_balances() {
    let mut a = accounts();
    assert_eq!(buy_tokens(&config(), key(BUYER), &mut a), Ok(()));
    assert_eq!(a.source.balance, 4_000);
    assert_eq!(a.vault.balance, 1_200);
    assert_eq!(a.destination.amount, 57);
    assert_eq!(a.mint.supply, 150);
    assert_eq!(buy_tokens(&config(), key(BUYER), &mut a), Ok(()));
    assert_eq!(a.vault.balance, 2_200);
    assert_eq!(a.destination.amount, 107);
}

#[test]
fn purchase_wrong_token_type_changes_nothing() {
    let mut a = accounts();
    a.destination.mint = key(OTHER_MINT);
    let before = a;
    assert_eq!(
        buy_tokens(&config(), key(BUYER), &mut a),
        Err(PurchaseError::Rejected(VoteError::TokenMintMismatch))
    );
    assert_eq!(a, before);
}

#[test]
fn purchase_wrong_owner_is_rejected() {
    let mut a = accounts();
    a.destination.owner = key(ADMIN);
    let before = a;
    assert_eq!(
        buy_tokens(&config(), key(BUYER), &mut a),
        Err(PurchaseError::Rejected(VoteError::InvalidTokenAccountOwner))
    );
    assert_eq!(a, before);
}

#[test]
fn purchase_wrong_mint_account_is_rejected() {
    let mut a = accounts();
    a.mint.key = key(OTHER_MINT);
    let before = a;
    assert_eq!(
        buy_tokens(&config(), key(BUYER), &mut a),
        Err(PurchaseError::Rejected(VoteError::InvalidMint))
    );
    assert_eq!(a, before);
}

#[test]
fn purchase_into_foreign_vault_is_rejected() {
    let mut a = accounts();
    a.vault.key = key(BUYER);
    let before = a;
    assert_eq!(
        buy_tokens(&config(), key(BUYER), &mut a),
        Err(PurchaseError::Rejected(VoteError::UnauthorizedAccess))
    );
    assert_eq!(a, before);
}

#[test]
fn purchase_without_enough_collateral_changes_nothing() {
    let mut a = accounts();
    a.source.balance = 999;
    let before = a;
    assert_eq!(buy_tokens(&config(), key(BUYER), &mut a), Err(PurchaseError::InsufficientCollateral));
    assert_eq!(a, before);
}

#[test]
fn purchase_failing_at_credit_rolls_back_debit() {
    let mut a = accounts();
    a.destination.amount = u64::MAX - 10;
    let before = a;
    assert_eq!(buy_tokens(&config(), key(BUYER), &mut a), Err(PurchaseError::BalanceOverflow));
    assert_eq!(a, before);
    let mut b = accounts();
    b.mint.supply = u64::MAX;
    let before = b;
    assert_eq!(buy_tokens(&config(), key(BUYER), &mut b), Err(PurchaseError::BalanceOverflow));
    assert_eq!(b, before);
}

#[test]
fn purchase_vault_overflow_changes_nothing() {
    let mut a = accounts();
    a.vault.balance = u64::MAX - 999;
    let before = a;
    assert_eq!(buy_tokens(&config(), key(BUYER), &mut a), Err(PurchaseError::BalanceOverflow));
    assert_eq!(a, before);
}
