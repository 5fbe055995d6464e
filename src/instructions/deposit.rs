//! Depositing assets for newly minted shares.
use vstd::prelude::*;
use crate::errors::VaultError;
use crate::state::Vault;
use crate::utils::{calculate_nav_per_share, calculate_shares_to_mint, nav_spec, raised_mark, shares_to_mint_spec};

verus! {

/// The vault after a deposit of `amount`, and the shares minted for it; or
/// the error that refuses it.
pub open spec fn deposit_spec(v: Vault, amount: u64) -> Result<(Vault, u64), VaultError> {
    if v.paused {
        Err(VaultError::VaultPaused)
    } else if amount < v.min_deposit {
        Err(VaultError::DepositTooSmall)
    } else {
        match shares_to_mint_spec(amount, v.total_assets, v.total_shares) {
            Err(e) => Err(e),
            Ok(shares) => if shares == 0 || v.total_assets + amount > u64::MAX || v.total_shares
                + shares > u64::MAX {
                Err(VaultError::MathOverflow)
            } else {
                let assets = (v.total_assets + amount) as u64;
                let supply = (v.total_shares + shares) as u64;
                Ok(
                    (
                        Vault {
                            total_assets: assets,
                            total_shares: supply,
                            high_water_mark: raised_mark(
                                v.high_water_mark,
                                nav_spec(assets, supply),
                            ),
                            ..v
                        },
                        shares,
                    ),
                )
            },
        }
    }
}

/// Deposits `amount` of the underlying asset: returns the shares to mint to
/// the depositor, adds both to the vault's totals, and raises the high-water
/// mark to the new NAV if that is higher (or the mark is still unset). A
/// deposit that would mint no shares is refused.
pub fn deposit(vault: &mut Vault, amount: u64) -> (r: Result<u64, VaultError>)
    ensures
        match deposit_spec(*old(vault), amount) {
            Ok((v, shares)) => r == Ok::<u64, VaultError>(shares) && *final(vault) == v,
            Err(e) => r == Err::<u64, VaultError>(e) && *final(vault) == *old(vault),
        },
        final(vault).high_water_mark >= old(vault).high_water_mark,
        old(vault).wf() ==> final(vault).wf(),
{
    if vault.paused {
        return Err(VaultError::VaultPaused);
    }
    if amount < vault.min_deposit {
        return Err(VaultError::DepositTooSmall);
    }
    let shares_to_mint: u64 = match calculate_shares_to_mint(
        amount,
        vault.total_assets,
        vault.total_shares,
    ) {
        Ok(s) => s,
        Err(e) => {
            return Err(e);
        },
    };
    if shares_to_mint == 0 {
        return Err(VaultError::MathOverflow);
    }
    let total_assets: u64 = match vault.total_assets.checked_add(amount) {
        Some(a) => a,
        None => {
            return Err(VaultError::MathOverflow);
        },
    };
    let total_shares: u64 = match vault.total_shares.checked_add(shares_to_mint) {
        Some(s) => s,
        None => {
            return Err(VaultError::MathOverflow);
        },
    };
    let nav: u64 = match calculate_nav_per_share(total_assets, total_shares) {
        Ok(n) => n,
        Err(e) => {
            return Err(e);
        },
    };
    vault.total_assets = total_assets;
    vault.total_shares = total_shares;
    if vault.high_water_mark == 0 || nav > vault.high_water_mark {
        vault.high_water_mark = nav;
    }
    Ok(shares_to_mint)
}

} // verus!
