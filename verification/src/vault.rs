use vstd::prelude::*;

use crate::asset::Asset;
use crate::errors::Errors;
use crate::keys::key_eq;
use crate::whitelist::TokenWhitelist;

verus! {

/// The balance movements of a successful lock: the amount escrowed, the vault's
/// balance afterwards, and the payer's holding afterwards.
#[derive(Clone, Copy, Debug, PartialEq, Eq, Structural)]
pub struct LockOutcome {
    pub amount: u64,
    pub vault_balance_after: u64,
    pub payer_balance_after: u64,
}

/// The balance movements of a successful release: the whole vault balance is
/// withdrawn and the destination holding grows by exactly that amount; the vault
/// account is then closed.
#[derive(Clone, Copy, Debug, PartialEq, Eq, Structural)]
pub struct ReleaseOutcome {
    pub withdraw_amount: u64,
    pub destination_balance_after: u64,
}

/// The admission rule and balance transition of locking funds for an asset:
/// the settlement token must be whitelisted, the payer must hold the price, and
/// the vault must be able to hold the grown balance. The whitelist rule decides
/// first on every input; the resource failures follow it.
pub open spec fn spec_lock_fund(
    tokens: Seq<[u8; 32]>,
    settlement_token: [u8; 32],
    price: u64,
    vault_balance: u64,
    payer_balance: u64,
) -> Result<LockOutcome, Errors> {
    if !tokens.contains(settlement_token) {
        Err(Errors::TokenNotWhitelisted)
    } else if payer_balance < price {
        Err(Errors::InSufficientToken)
    } else if vault_balance + price > u64::MAX {
        Err(Errors::InSufficientToken)
    } else {
        Ok(
            LockOutcome {
                amount: price,
                vault_balance_after: (vault_balance + price) as u64,
                payer_balance_after: (payer_balance - price) as u64,
            },
        )
    }
}

/// The admission rule and balance transition of releasing a vault: only the
/// recorded owner of the escrowed asset may trigger it, and that rule decides
/// first on every input; a destination that cannot hold the grown balance is a
/// resource failure after it.
pub open spec fn spec_release(
    vault_balance: u64,
    destination_balance: u64,
    signer: [u8; 32],
    owner: [u8; 32],
) -> Result<ReleaseOutcome, Errors> {
    if signer != owner {
        Err(Errors::UnauthorizedSigner)
    } else if destination_balance + vault_balance > u64::MAX {
        Err(Errors::InSufficientToken)
    } else {
        Ok(
            ReleaseOutcome {
                withdraw_amount: vault_balance,
                destination_balance_after: (destination_balance + vault_balance) as u64,
            },
        )
    }
}

/// Validates a settlement token against the whitelist, prices the lock from the
/// asset record, and returns the exact balance movement; no movement on failure.
pub fn lock_fund(
    whitelist: &TokenWhitelist,
    settlement_token: &[u8; 32],
    asset: &Asset,
    vault_balance: u64,
    payer_balance: u64,
) -> (r: Result<LockOutcome, Errors>)
    ensures
        r == spec_lock_fund(
            whitelist.tokens@,
            *settlement_token,
            asset.price,
            vault_balance,
            payer_balance,
        ),
{
    if !whitelist.contains_token(settlement_token) {
        Err(Errors::TokenNotWhitelisted)
    } else if payer_balance < asset.price {
        Err(Errors::InSufficientToken)
    } else if vault_balance > u64::MAX - asset.price {
        Err(Errors::InSufficientToken)
    } else {
        Ok(
            LockOutcome {
                amount: asset.price,
                vault_balance_after: vault_balance + asset.price,
                payer_balance_after: payer_balance - asset.price,
            },
        )
    }
}

/// Moves the vault's entire balance to the destination and closes the vault,
/// provided the signer is the recorded owner; no movement on failure.
pub fn release(
    vault_balance: u64,
    destination_balance: u64,
    signer: &[u8; 32],
    owner: &[u8; 32],
) -> (r: Result<ReleaseOutcome, Errors>)
    ensures
        r == spec_release(vault_balance, destination_balance, *signer, *owner),
{
    if !key_eq(signer, owner) {
        Err(Errors::UnauthorizedSigner)
    } else if destination_balance > u64::MAX - vault_balance {
        Err(Errors::InSufficientToken)
    } else {
        Ok(
            ReleaseOutcome {
                withdraw_amount: vault_balance,
                destination_balance_after: destination_balance + vault_balance,
            },
        )
    }
}

/// Locking a whitelisted token for an asset priced `price` into a fresh vault
/// leaves the vault holding exactly `price`; releasing that vault to its owner
/// moves exactly that balance to the destination, and the vault is then gone.
pub proof fn lemma_vault_conservation(
    tokens: Seq<[u8; 32]>,
    settlement_token: [u8; 32],
    price: u64,
    payer_balance: u64,
    destination_balance: u64,
    owner: [u8; 32],
)
    requires
        tokens.contains(settlement_token),
        price <= payer_balance,
        destination_balance + price <= u64::MAX,
    ensures
        spec_lock_fund(tokens, settlement_token, price, 0, payer_balance) matches Ok(lo)
            && lo.vault_balance_after == price,
        spec_release(price, destination_balance, owner, owner) matches Ok(ro)
            && ro.withdraw_amount == price && ro.destination_balance_after == destination_balance
            + price,
{
}

/// Locking with a settlement token that is not whitelisted fails with the
/// not-whitelisted error, whatever the other inputs, and moves no balance.
pub proof fn lemma_lock_requires_whitelisted(
    tokens: Seq<[u8; 32]>,
    settlement_token: [u8; 32],
    price: u64,
    vault_balance: u64,
    payer_balance: u64,
)
    requires
        !tokens.contains(settlement_token),
    ensures
        spec_lock_fund(tokens, settlement_token, price, vault_balance, payer_balance)
            == Err::<LockOutcome, Errors>(Errors::TokenNotWhitelisted),
{
}

/// A release requested by anyone but the recorded owner fails with the
/// authorization error, whatever the balances, and moves no balance.
pub proof fn lemma_release_requires_ownership(
    vault_balance: u64,
    destination_balance: u64,
    signer: [u8; 32],
    owner: [u8; 32],
)
    requires
        signer != owner,
    ensures
        spec_release(vault_balance, destination_balance, signer, owner) == Err::<
            ReleaseOutcome,
            Errors,
        >(Errors::UnauthorizedSigner),
{
}

} // verus!
