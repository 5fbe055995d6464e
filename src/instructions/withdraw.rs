//! Redeeming shares for the underlying asset.
use vstd::prelude::*;
use crate::errors::VaultError;
use crate::state::Vault;
use crate::utils::{assets_from_shares_spec, calculate_assets_from_shares};

verus! {

/// The vault after `shares` are redeemed, and the assets owed for them; or
/// the error that refuses it. `user_share_balance` is what the caller holds,
/// `vault_token_balance` what the vault's token account holds.
pub open spec fn withdraw_spec(
    v: Vault,
    user_share_balance: u64,
    vault_token_balance: u64,
    shares: u64,
) -> Result<(Vault, u64), VaultError> {
    if v.paused {
        Err(VaultError::VaultPaused)
    } else if user_share_balance < shares {
        Err(VaultError::InsufficientFunds)
    } else {
        match assets_from_shares_spec(shares, v.total_assets, v.total_shares) {
            Err(e) => Err(e),
            Ok(assets) => if assets > v.total_assets || assets > vault_token_balance {
                Err(VaultError::InsufficientFunds)
            } else if shares > v.total_shares {
                Err(VaultError::MathOverflow)
            } else {
                Ok(
                    (
                        Vault {
                            total_assets: (v.total_assets - assets) as u64,
                            total_shares: (v.total_shares - shares) as u64,
                            ..v
                        },
                        assets,
                    ),
                )
            },
        }
    }
}

/// Redeems `shares`: returns the assets to transfer to the caller and takes
/// both off the vault's totals. Refused when the caller holds fewer shares,
/// or the assets owed exceed the vault's recorded or liquid assets.
pub fn withdraw(
    vault: &mut Vault,
    user_share_balance: u64,
    vault_token_balance: u64,
    shares: u64,
) -> (r: Result<u64, VaultError>)
    ensures
        match withdraw_spec(*old(vault), user_share_balance, vault_token_balance, shares) {
            Ok((v, assets)) => r == Ok::<u64, VaultError>(assets) && *final(vault) == v,
            Err(e) => r == Err::<u64, VaultError>(e) && *final(vault) == *old(vault),
        },
        old(vault).wf() ==> final(vault).wf(),
{
    if vault.paused {
        return Err(VaultError::VaultPaused);
    }
    if user_share_balance < shares {
        return Err(VaultError::InsufficientFunds);
    }
    let assets_to_withdraw: u64 = match calculate_assets_from_shares(
        shares,
        vault.total_assets,
        vault.total_shares,
    ) {
        Ok(a) => a,
        Err(e) => {
            return Err(e);
        },
    };
    if assets_to_withdraw > vault.total_assets || assets_to_withdraw > vault_token_balance {
        return Err(VaultError::InsufficientFunds);
    }
    if shares > vault.total_shares {
        return Err(VaultError::MathOverflow);
    }
    vault.total_assets = vault.total_assets - assets_to_withdraw;
    vault.total_shares = vault.total_shares - shares;
    Ok(assets_to_withdraw)
}

} // verus!
