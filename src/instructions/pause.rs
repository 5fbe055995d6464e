//! Pausing and unpausing a vault.
use vstd::prelude::*;
use crate::errors::VaultError;
use crate::state::Vault;

verus! {

/// Pauses an active vault; `authorized` says whether the caller is the
/// vault's authority. A vault that is already paused is refused with
/// `VaultNotPaused`.
pub fn pause_vault(vault: &mut Vault, authorized: bool) -> (r: Result<(), VaultError>)
    ensures
        !authorized ==> r == Err::<(), VaultError>(VaultError::Unauthorized),
        authorized && old(vault).paused ==> r == Err::<(), VaultError>(VaultError::VaultNotPaused),
        authorized && !old(vault).paused ==> r is Ok,
        r is Ok ==> *final(vault) == (Vault { paused: true, ..*old(vault) }),
        r is Err ==> *final(vault) == *old(vault),
        old(vault).wf() ==> final(vault).wf(),
{
    if !authorized {
        return Err(VaultError::Unauthorized);
    }
    if vault.paused {
        return Err(VaultError::VaultNotPaused);
    }
    vault.paused = true;
    Ok(())
}

/// Unpauses a paused vault; `authorized` says whether the caller is the
/// vault's authority. An active vault is refused with `VaultNotPaused`.
pub fn unpause_vault(vault: &mut Vault, authorized: bool) -> (r: Result<(), VaultError>)
    ensures
        !authorized ==> r == Err::<(), VaultError>(VaultError::Unauthorized),
        authorized && !old(vault).paused ==> r == Err::<(), VaultError>(VaultError::VaultNotPaused),
        authorized && old(vault).paused ==> r is Ok,
        r is Ok ==> *final(vault) == (Vault { paused: false, ..*old(vault) }),
        r is Err ==> *final(vault) == *old(vault),
        old(vault).wf() ==> final(vault).wf(),
{
    if !authorized {
        return Err(VaultError::Unauthorized);
    }
    if !vault.paused {
        return Err(VaultError::VaultNotPaused);
    }
    vault.paused = false;
    Ok(())
}

} // verus!
