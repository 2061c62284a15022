use vstd::prelude::*;
use crate::error::VoteError;
use crate::key::Key;

verus! {

/// The administrator-set terms on which the treasury sells its token.
#[derive(Clone, Copy, Debug, PartialEq, Eq, Structural)]
pub struct TreasuryConfig {
    /// The only party that may change the terms.
    pub authority: Key,
    /// The account that receives the collateral paid.
    pub collateral_vault: Key,
    /// The token type sold; fixed at initialization.
    pub token_type: Key,
    /// Collateral units paid for one purchase.
    pub sol_price: u64,
    /// Token units delivered by one purchase.
    pub tokens_per_purchase: u64,
}

/// What `initialize_treasury` does: the outcome and the slot afterwards.
pub open spec fn initialize_treasury_spec(
    slot: Option<TreasuryConfig>,
    config: TreasuryConfig,
) -> (Result<(), VoteError>, Option<TreasuryConfig>) {
    if slot.is_some() {
        (Err(VoteError::AlreadyInitialized), slot)
    } else {
        (Ok(()), Some(config))
    }
}

/// Creates the treasury's configuration in an empty slot, with every field as
/// given; fails with `AlreadyInitialized`, changing nothing, where one exists.
pub fn initialize_treasury(
    slot: &mut Option<TreasuryConfig>,
    authority: Key,
    collateral_vault: Key,
    token_type: Key,
    sol_price: u64,
    tokens_per_purchase: u64,
) -> (r: Result<(), VoteError>)
    ensures
        (r, *final(slot)) == initialize_treasury_spec(
            *old(slot),
            TreasuryConfig { authority, collateral_vault, token_type, sol_price, tokens_per_purchase },
        ),
{
    if slot.is_some() {
        return Err(VoteError::AlreadyInitialized);
    }
    *slot = Some(TreasuryConfig { authority, collateral_vault, token_type, sol_price, tokens_per_purchase });
    Ok(())
}

/// A second initialization fails with `AlreadyInitialized` and keeps every
/// field as the first one set it.
pub proof fn lemma_initialize_once(slot: Option<TreasuryConfig>, first: TreasuryConfig, second: TreasuryConfig)
    requires
        slot.is_none(),
    ensures
        ({
            let (r1, s1) = initialize_treasury_spec(slot, first);
            let (r2, s2) = initialize_treasury_spec(s1, second);
            &&& r1 is Ok
            &&& r2 == Err::<(), VoteError>(VoteError::AlreadyInitialized)
            &&& s2 == Some(first)
        }),
{
}

impl TreasuryConfig {
    /// Sets the price of one purchase, at the authority's request.
    pub fn update_price(&mut self, caller: Key, sol_price: u64) -> (r: Result<(), VoteError>)
        ensures
            caller != old(self).authority ==> r == Err::<(), VoteError>(VoteError::UnauthorizedAccess)
                && *final(self) == *old(self),
            caller == old(self).authority ==> r is Ok && *final(self) == (TreasuryConfig {
                sol_price,
                ..*old(self)
            }),
    {
        if !caller.same(&self.authority) {
            return Err(VoteError::UnauthorizedAccess);
        }
        self.sol_price = sol_price;
        Ok(())
    }

    /// Sets the number of tokens one purchase delivers, at the authority's
    /// request.
    pub fn update_volume(&mut self, caller: Key, tokens_per_purchase: u64) -> (r: Result<(), VoteError>)
        ensures
            caller != old(self).authority ==> r == Err::<(), VoteError>(VoteError::UnauthorizedAccess)
                && *final(self) == *old(self),
            caller == old(self).authority ==> r is Ok && *final(self) == (TreasuryConfig {
                tokens_per_purchase,
                ..*old(self)
            }),
    {
        if !caller.same(&self.authority) {
            return Err(VoteError::UnauthorizedAccess);
        }
        self.tokens_per_purchase = tokens_per_purchase;
        Ok(())
    }
}

} // verus!
