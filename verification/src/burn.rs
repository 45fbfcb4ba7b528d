use vstd::prelude::*;

use crate::errors::Errors;
use crate::keys::key_eq;
use crate::pda::stake_vault_seed_bytes;
use crate::pda::vault_seeds;
use crate::vault::ReleaseOutcome;
use crate::vault::spec_release;

verus! {

broadcast use vstd::array::group_array_axioms;

/// Everything a burn carries out: the vault release, the seeds that sign as the
/// vault's authority, and the identifying fields of the leaf handed on to the
/// leaf-compression program's burn entry point.
pub struct BurnPlan {
    pub release: ReleaseOutcome,
    pub vault_signer_seeds: Vec<Vec<u8>>,
    pub root: [u8; 32],
    pub data_hash: [u8; 32],
    pub creator_hash: [u8; 32],
    pub nonce: u64,
    pub index: u32,
}

/// Prepares a burn: only the recorded owner of the compressed asset may invoke
/// it, and that rule decides first on every input; on success the vault's whole
/// balance moves to the destination, the vault closes, and the leaf's
/// identifying fields are forwarded unchanged. A destination that cannot hold
/// the grown balance is a resource failure after the ownership rule.
pub fn burn_cnft(
    root: &[u8; 32],
    data_hash: &[u8; 32],
    creator_hash: &[u8; 32],
    nonce: u64,
    index: u32,
    signer: &[u8; 32],
    cnft_owner: &[u8; 32],
    cnft_id: &[u8; 32],
    vault_bump: u8,
    vault_balance: u64,
    destination_balance: u64,
) -> (r: Result<BurnPlan, Errors>)
    ensures
        *signer != *cnft_owner ==> r == Err::<BurnPlan, Errors>(Errors::UnauthorizedSigner),
        *signer == *cnft_owner && destination_balance + vault_balance > u64::MAX ==> r == Err::<
            BurnPlan,
            Errors,
        >(Errors::InSufficientToken),
        r is Ok <==> (*signer == *cnft_owner && destination_balance + vault_balance <= u64::MAX),
        r matches Ok(p) ==> {
            &&& Ok::<ReleaseOutcome, Errors>(p.release) == spec_release(
                vault_balance,
                destination_balance,
                *signer,
                *cnft_owner,
            )
            &&& p.release.withdraw_amount == vault_balance
            &&& p.release.destination_balance_after == destination_balance + vault_balance
            &&& p.vault_signer_seeds.deep_view() =~~= vault_seeds(cnft_id@).push(
                seq![vault_bump],
            )
            &&& p.root == *root
            &&& p.data_hash == *data_hash
            &&& p.creator_hash == *creator_hash
            &&& p.nonce == nonce
            &&& p.index == index
        },
{
    if !key_eq(signer, cnft_owner) {
        return Err(Errors::UnauthorizedSigner);
    }
    let release = match crate::vault::release(vault_balance, destination_balance, signer, cnft_owner) {
        Ok(o) => o,
        Err(e) => {
            return Err(e);
        },
    };
    let mut vault_signer_seeds: Vec<Vec<u8>> = Vec::new();
    vault_signer_seeds.push(stake_vault_seed_bytes());
    let mut id_seed: Vec<u8> = Vec::new();
    crate::keys::push_byte_run(&mut id_seed, cnft_id.as_slice());
    vault_signer_seeds.push(id_seed);
    let mut bump_seed: Vec<u8> = Vec::new();
    bump_seed.push(vault_bump);
    vault_signer_seeds.push(bump_seed);
    proof {
        assert(vault_signer_seeds.deep_view() =~~= vault_seeds(cnft_id@).push(seq![vault_bump]));
    }
    Ok(
        BurnPlan {
            release,
            vault_signer_seeds,
            root: *root,
            data_hash: *data_hash,
            creator_hash: *creator_hash,
            nonce,
            index,
        },
    )
}

} // verus!
