use vstd::prelude::*;

use crate::keys::{AccountMeta, Pubkey, spec_system_id};
use crate::request::Instruction;

verus! {

/// Most seeds a derived address may be computed from.
pub const MAX_SEEDS: usize = 16;

/// Longest single seed a derived address may be computed from.
pub const MAX_SEED_LEN: usize = 32;

/// The wire bytes of a system create-account instruction: a function of the
/// funding amount, the allocated size and the owning program alone.
pub uninterp spec fn create_account_data(lamports: u64, space: u64, owner: Seq<u8>) -> Seq<u8>;

/// The derived address and bump seed for a seed list under a program
/// identifier, or nothing when no bump seed is viable: a function of the
/// seeds and the program identifier alone.
pub uninterp spec fn pda_of(seeds: Seq<Seq<u8>>, program_id: Seq<u8>) -> Option<(Seq<u8>, u8)>;

/// Relies on solana_sdk's system_instruction::create_account: it targets
/// the system program (the all-zero identifier) with exactly two account
/// references, the funding key and the new key, both signing and writable,
/// and with argument bytes built from the amount, size and owner alone.
#[verifier::external_body]
pub(crate) fn sdk_create_account(
    from: &Pubkey,
    to: &Pubkey,
    lamports: u64,
    space: u64,
    owner: &Pubkey,
) -> (r: Instruction)
    requires
        from.wf(),
        to.wf(),
        owner.wf(),
    ensures
        r.program_id@ == spec_system_id(),
        r.accounts@.len() == 2,
        r.accounts@[0].pubkey@ == from@ && r.accounts@[0].is_signer && r.accounts@[0].is_writable,
        r.accounts@[1].pubkey@ == to@ && r.accounts@[1].is_signer && r.accounts@[1].is_writable,
        r.data@ == create_account_data(lamports, space, owner@),
{
    let f = solana_sdk::pubkey::Pubkey::try_from(from.as_bytes().as_slice()).unwrap();
    let t = solana_sdk::pubkey::Pubkey::try_from(to.as_bytes().as_slice()).unwrap();
    let o = solana_sdk::pubkey::Pubkey::try_from(owner.as_bytes().as_slice()).unwrap();
    let ix = solana_sdk::system_instruction::create_account(&f, &t, lamports, space, &o);
    let mut accounts: Vec<AccountMeta> = Vec::new();
    for m in ix.accounts.iter() {
        let key = Pubkey::new(m.pubkey.to_bytes().to_vec());
        accounts.push(AccountMeta::new(key, m.is_signer, m.is_writable));
    }
    let program_id = Pubkey::new(ix.program_id.to_bytes().to_vec());
    Instruction { program_id, accounts, data: ix.data }
}

/// Relies on solana_sdk's Pubkey::try_find_program_address: the result
/// depends on the seeds and the program identifier alone, and a found
/// address has the full key length.
#[verifier::external_body]
pub(crate) fn sdk_find_program_address(seeds: &Vec<Vec<u8>>, program_id: &Pubkey) -> (r: Option<
    (Pubkey, u8),
>)
    requires
        program_id.wf(),
        seeds@.len() <= MAX_SEEDS,
        forall|i: int| 0 <= i < seeds@.len() ==> #[trigger] seeds@[i]@.len() <= MAX_SEED_LEN,
    ensures
        match r {
            Some(p) => Option::Some((p.0@, p.1)) == pda_of(seeds.deep_view(), program_id@)
                && p.0.wf(),
            None => pda_of(seeds.deep_view(), program_id@) is None,
        },
{
    let pid = solana_sdk::pubkey::Pubkey::try_from(program_id.as_bytes().as_slice()).unwrap();
    let mut refs: Vec<&[u8]> = Vec::new();
    for s in seeds.iter() {
        refs.push(s.as_slice());
    }
    match solana_sdk::pubkey::Pubkey::try_find_program_address(&refs, &pid) {
        Some((k, bump)) => Some((Pubkey::new(k.to_bytes().to_vec()), bump)),
        None => None,
    }
}

} // verus!
