use vstd::prelude::*;

use crate::ClientError;
use crate::accounts::{Counter, EventRecord, ValueAccount};
use crate::codec::{append_all, copy_range, le_bytes, write_u64_le};
use crate::keys::{AccountMeta, Pubkey, spec_system_id, system_program_id};
use crate::request::{Instruction, RequestBuilder, Transaction};
use crate::sdk::{create_account_data, pda_of, sdk_create_account, sdk_find_program_address};

verus! {

/// Does this instruction fund a fresh account: system program target, the
/// funding key and the new key as its two signing writable references, and
/// the amount, size and owner encoded as its argument bytes?
pub open spec fn is_create_account_ix(
    ix: Instruction,
    from: Seq<u8>,
    to: Seq<u8>,
    lamports: u64,
    space: u64,
    owner: Seq<u8>,
) -> bool {
    &&& ix.program_id@ == spec_system_id()
    &&& ix.accounts@.len() == 2
    &&& is_meta(ix.accounts@[0], from, true, true)
    &&& is_meta(ix.accounts@[1], to, true, true)
    &&& ix.data@ == create_account_data(lamports, space, owner)
}

/// Is this the account reference with the given key and flags?
pub open spec fn is_meta(m: AccountMeta, key: Seq<u8>, is_signer: bool, is_writable: bool) -> bool {
    m.pubkey@ == key && m.is_signer == is_signer && m.is_writable == is_writable
}

/// The composite workload's first request: fund both member accounts, then
/// call the program's initializer over them.
///
/// The transaction carries exactly the two funding instructions and the
/// initializer call, in that order, and is signed by the payer and both
/// fresh member keys.
pub fn composite_init_request(
    program_id: &Pubkey,
    payer: &Pubkey,
    dummy_a: &Pubkey,
    dummy_b: &Pubkey,
    rent_lamports: u64,
    space: u64,
    method: &Vec<u8>,
) -> (t: Transaction)
    requires
        program_id.wf(),
        payer.wf(),
        dummy_a.wf(),
        dummy_b.wf(),
    ensures
        t.instructions@.len() == 3,
        is_create_account_ix(
            t.instructions@[0],
            payer@,
            dummy_a@,
            rent_lamports,
            space,
            program_id@,
        ),
        is_create_account_ix(
            t.instructions@[1],
            payer@,
            dummy_b@,
            rent_lamports,
            space,
            program_id@,
        ),
        t.instructions@[2].program_id@ == program_id@,
        t.instructions@[2].accounts@.len() == 2,
        is_meta(t.instructions@[2].accounts@[0], dummy_a@, false, true),
        is_meta(t.instructions@[2].accounts@[1], dummy_b@, false, true),
        t.instructions@[2].data@ == method@,
        t.signers@.len() == 3,
        t.signers@[0]@ == payer@,
        t.signers@[1]@ == dummy_a@,
        t.signers@[2]@ == dummy_b@,
{
    let ix_a = sdk_create_account(payer, dummy_a, rent_lamports, space, program_id);
    let ix_b = sdk_create_account(payer, dummy_b, rent_lamports, space, program_id);
    let mut metas: Vec<AccountMeta> = Vec::new();
    metas.push(AccountMeta::new(dummy_a.dup(), false, true));
    metas.push(AccountMeta::new(dummy_b.dup(), false, true));
    let data = copy_range(method, 0, method.len());
    proof {
        assert(data@ =~= method@);
    }
    let t = RequestBuilder::new(program_id.dup(), payer.dup()).instruction(ix_a).instruction(
        ix_b,
    ).signer(dummy_a.dup()).signer(dummy_b.dup()).accounts(metas).args(data).build();
    t
}

/// The composite workload's second request: one call of the program's
/// composite updater, naming both member accounts and carrying both new
/// values, signed by the payer alone.
pub fn composite_update_request(
    program_id: &Pubkey,
    payer: &Pubkey,
    dummy_a: &Pubkey,
    dummy_b: &Pubkey,
    method: &Vec<u8>,
    val_a: u64,
    val_b: u64,
) -> (t: Transaction)
    requires
        program_id.wf(),
        payer.wf(),
        dummy_a.wf(),
        dummy_b.wf(),
    ensures
        t.instructions@.len() == 1,
        t.instructions@[0].program_id@ == program_id@,
        t.instructions@[0].accounts@.len() == 2,
        is_meta(t.instructions@[0].accounts@[0], dummy_a@, false, true),
        is_meta(t.instructions@[0].accounts@[1], dummy_b@, false, true),
        t.instructions@[0].data@ == method@ + le_bytes(val_a as nat, 8) + le_bytes(
            val_b as nat,
            8,
        ),
        t.signers@.len() == 1,
        t.signers@[0]@ == payer@,
{
    let mut metas: Vec<AccountMeta> = Vec::new();
    metas.push(AccountMeta::new(dummy_a.dup(), false, true));
    metas.push(AccountMeta::new(dummy_b.dup(), false, true));
    let mut data = copy_range(method, 0, method.len());
    proof {
        assert(data@ =~= method@);
    }
    write_u64_le(&mut data, val_a);
    write_u64_le(&mut data, val_b);
    let t = RequestBuilder::new(program_id.dup(), payer.dup()).accounts(metas).args(data).build();
    t
}

/// The counter workload's creating request: the program's create call over
/// the fresh counter account, the paying authority and the system program,
/// signed by the payer and the counter key.
pub fn basic_2_create_request(
    program_id: &Pubkey,
    payer: &Pubkey,
    counter: &Pubkey,
    method: &Vec<u8>,
) -> (t: Transaction)
    requires
        program_id.wf(),
        payer.wf(),
        counter.wf(),
    ensures
        t.instructions@.len() == 1,
        t.instructions@[0].program_id@ == program_id@,
        t.instructions@[0].accounts@.len() == 3,
        is_meta(t.instructions@[0].accounts@[0], counter@, true, true),
        is_meta(t.instructions@[0].accounts@[1], payer@, true, true),
        is_meta(t.instructions@[0].accounts@[2], spec_system_id(), false, false),
        t.instructions@[0].data@ == method@ + payer@,
        t.signers@.len() == 2,
        t.signers@[0]@ == payer@,
        t.signers@[1]@ == counter@,
{
    let mut metas: Vec<AccountMeta> = Vec::new();
    metas.push(AccountMeta::new(counter.dup(), true, true));
    metas.push(AccountMeta::new(payer.dup(), true, true));
    metas.push(AccountMeta::new(system_program_id(), false, false));
    let mut data = copy_range(method, 0, method.len());
    proof {
        assert(data@ =~= method@);
    }
    append_all(&mut data, payer.as_bytes());
    let t = RequestBuilder::new(program_id.dup(), payer.dup()).signer(counter.dup()).accounts(
        metas,
    ).args(data).build();
    t
}

/// Holds a decoded counter the expected state: the given authority and
/// exactly the expected count?
pub fn counter_state_ok(c: &Counter, authority: &Pubkey, expected_count: u64) -> (r: bool)
    ensures
        r == (c.authority@ == authority@ && c.count == expected_count),
{
    let authority_ok = crate::keys::bytes_eq(c.authority.as_bytes(), authority.as_bytes());
    authority_ok && c.count == expected_count
}

/// Holds a decoded single-value account exactly the expected value?
pub fn value_is(a: &ValueAccount, expected: u64) -> (r: bool)
    ensures
        r == (a.data == expected),
{
    a.data == expected
}

/// The seed the derived counter account is computed from.
pub open spec fn spec_counter_seed() -> Seq<u8> {
    seq![99u8, 111u8, 117u8, 110u8, 116u8, 101u8, 114u8]
}

/// The seed the derived counter account is computed from, as bytes.
pub fn counter_seed() -> (r: Vec<u8>)
    ensures
        r@ == spec_counter_seed(),
{
    let mut out: Vec<u8> = Vec::new();
    out.push(99u8);
    out.push(111u8);
    out.push(117u8);
    out.push(110u8);
    out.push(116u8);
    out.push(101u8);
    out.push(114u8);
    proof {
        assert(out@ =~= spec_counter_seed());
    }
    out
}

/// The derived address of the program's counter account, or nothing in the
/// improbable case that no bump seed is viable.
pub fn basic_4_counter_address(program_id: &Pubkey) -> (r: Option<(Pubkey, u8)>)
    requires
        program_id.wf(),
    ensures
        match r {
            Some(p) => Option::Some((p.0@, p.1)) == pda_of(
                seq![spec_counter_seed()],
                program_id@,
            ) && p.0.wf(),
            None => pda_of(seq![spec_counter_seed()], program_id@) is None,
        },
{
    let mut seeds: Vec<Vec<u8>> = Vec::new();
    seeds.push(counter_seed());
    proof {
        assert(seeds@[0].deep_view() =~= spec_counter_seed());
        assert(seeds.deep_view() =~= seq![spec_counter_seed()]);
    }
    sdk_find_program_address(&seeds, program_id)
}

/// The derived-counter workload's initializing request: the program's
/// initializer over the derived counter, the authority and the system
/// program, signed by the payer alone.
pub fn basic_4_init_request(
    program_id: &Pubkey,
    payer: &Pubkey,
    counter: &Pubkey,
    method: &Vec<u8>,
) -> (t: Transaction)
    requires
        program_id.wf(),
        payer.wf(),
        counter.wf(),
    ensures
        t.instructions@.len() == 1,
        t.instructions@[0].program_id@ == program_id@,
        t.instructions@[0].accounts@.len() == 3,
        is_meta(t.instructions@[0].accounts@[0], counter@, false, true),
        is_meta(t.instructions@[0].accounts@[1], payer@, true, true),
        is_meta(t.instructions@[0].accounts@[2], spec_system_id(), false, false),
        t.instructions@[0].data@ == method@,
        t.signers@.len() == 1,
        t.signers@[0]@ == payer@,
{
    let mut metas: Vec<AccountMeta> = Vec::new();
    metas.push(AccountMeta::new(counter.dup(), false, true));
    metas.push(AccountMeta::new(payer.dup(), true, true));
    metas.push(AccountMeta::new(system_program_id(), false, false));
    let data = copy_range(method, 0, method.len());
    proof {
        assert(data@ =~= method@);
    }
    let t = RequestBuilder::new(program_id.dup(), payer.dup()).accounts(metas).args(data).build();
    t
}

/// The derived-counter workload's incrementing request: the program's
/// increment call over the derived counter and its authority, signed by the
/// payer alone.
pub fn basic_4_increment_request(
    program_id: &Pubkey,
    payer: &Pubkey,
    counter: &Pubkey,
    method: &Vec<u8>,
) -> (t: Transaction)
    requires
        program_id.wf(),
        payer.wf(),
        counter.wf(),
    ensures
        t.instructions@.len() == 1,
        t.instructions@[0].program_id@ == program_id@,
        t.instructions@[0].accounts@.len() == 2,
        is_meta(t.instructions@[0].accounts@[0], counter@, false, true),
        is_meta(t.instructions@[0].accounts@[1], payer@, true, false),
        t.instructions@[0].data@ == method@,
        t.signers@.len() == 1,
        t.signers@[0]@ == payer@,
{
    let mut metas: Vec<AccountMeta> = Vec::new();
    metas.push(AccountMeta::new(counter.dup(), false, true));
    metas.push(AccountMeta::new(payer.dup(), true, false));
    let data = copy_range(method, 0, method.len());
    proof {
        assert(data@ =~= method@);
    }
    let t = RequestBuilder::new(program_id.dup(), payer.dup()).accounts(metas).args(data).build();
    t
}

/// The events workload's triggering request: one bare call of the program's
/// initializer, no account references, signed by the payer alone.
pub fn events_request(program_id: &Pubkey, payer: &Pubkey, method: &Vec<u8>) -> (t: Transaction)
    requires
        program_id.wf(),
        payer.wf(),
    ensures
        t.instructions@.len() == 1,
        t.instructions@[0].program_id@ == program_id@,
        t.instructions@[0].accounts@.len() == 0,
        t.instructions@[0].data@ == method@,
        t.signers@.len() == 1,
        t.signers@[0]@ == payer@,
{
    let data = copy_range(method, 0, method.len());
    proof {
        assert(data@ =~= method@);
    }
    let t = RequestBuilder::new(program_id.dup(), payer.dup()).args(data).build();
    t
}

/// Is this event exactly the expected one, number and label both?
pub fn event_matches(e: &EventRecord, data: u64, label: &Vec<u8>) -> (r: bool)
    ensures
        r == (e.data == data && e.label@ == label@),
{
    e.data == data && crate::keys::bytes_eq(&e.label, label)
}

/// The seed prefix the optional workload's derived account is computed
/// from.
pub open spec fn spec_data_pda_prefix() -> Seq<u8> {
    seq![100u8, 97u8, 116u8, 97u8, 95u8, 112u8, 100u8, 97u8]
}

/// The seed prefix the optional workload's derived account is computed
/// from, as bytes.
pub fn data_pda_prefix() -> (r: Vec<u8>)
    ensures
        r@ == spec_data_pda_prefix(),
{
    let mut out: Vec<u8> = Vec::new();
    out.push(100u8);
    out.push(97u8);
    out.push(116u8);
    out.push(97u8);
    out.push(95u8);
    out.push(112u8);
    out.push(100u8);
    out.push(97u8);
    proof {
        assert(out@ =~= spec_data_pda_prefix());
    }
    out
}

/// The derived address tied to the optional workload's data account, or
/// nothing in the improbable case that no bump seed is viable.
pub fn optional_pda_address(program_id: &Pubkey, data_account: &Pubkey) -> (r: Option<
    (Pubkey, u8),
>)
    requires
        program_id.wf(),
        data_account.wf(),
    ensures
        match r {
            Some(p) => Option::Some((p.0@, p.1)) == pda_of(
                seq![spec_data_pda_prefix(), data_account@],
                program_id@,
            ) && p.0.wf(),
            None => pda_of(seq![spec_data_pda_prefix(), data_account@], program_id@) is None,
        },
{
    let mut seeds: Vec<Vec<u8>> = Vec::new();
    seeds.push(data_pda_prefix());
    seeds.push(copy_range(data_account.as_bytes(), 0, data_account.as_bytes().len()));
    proof {
        assert(seeds@[0].deep_view() =~= spec_data_pda_prefix());
        assert(seeds@[1]@ =~= data_account@);
        assert(seeds@[1].deep_view() =~= data_account@);
        assert(seeds.deep_view() =~= seq![spec_data_pda_prefix(), data_account@]);
    }
    sdk_find_program_address(&seeds, program_id)
}

/// The optional workload's initializing request: fund the required account,
/// then call the program's initializer naming the payer, the required
/// account, the system program, the optional data account, and the
/// program's own identifier standing in for the absent optional derived
/// account; signed by the payer, the data account and the required key.
pub fn optional_init_request(
    program_id: &Pubkey,
    payer: &Pubkey,
    data_account: &Pubkey,
    required: &Pubkey,
    rent_lamports: u64,
    space: u64,
    method: &Vec<u8>,
    value: u64,
) -> (t: Transaction)
    requires
        program_id.wf(),
        payer.wf(),
        data_account.wf(),
        required.wf(),
    ensures
        t.instructions@.len() == 2,
        is_create_account_ix(
            t.instructions@[0],
            payer@,
            required@,
            rent_lamports,
            space,
            program_id@,
        ),
        t.instructions@[1].program_id@ == program_id@,
        t.instructions@[1].accounts@.len() == 5,
        is_meta(t.instructions@[1].accounts@[0], payer@, true, true),
        is_meta(t.instructions@[1].accounts@[1], required@, false, true),
        is_meta(t.instructions@[1].accounts@[2], spec_system_id(), false, false),
        is_meta(t.instructions@[1].accounts@[3], data_account@, true, true),
        is_meta(t.instructions@[1].accounts@[4], program_id@, false, false),
        t.instructions@[1].data@ == method@ + le_bytes(value as nat, 8) + program_id@,
        t.signers@.len() == 3,
        t.signers@[0]@ == payer@,
        t.signers@[1]@ == data_account@,
        t.signers@[2]@ == required@,
{
    let ix = sdk_create_account(payer, required, rent_lamports, space, program_id);
    let mut metas: Vec<AccountMeta> = Vec::new();
    metas.push(AccountMeta::new(payer.dup(), true, true));
    metas.push(AccountMeta::new(required.dup(), false, true));
    metas.push(AccountMeta::new(system_program_id(), false, false));
    metas.push(AccountMeta::new(data_account.dup(), true, true));
    metas.push(AccountMeta::new(program_id.dup(), false, false));
    let mut data = copy_range(method, 0, method.len());
    proof {
        assert(data@ =~= method@);
    }
    write_u64_le(&mut data, value);
    append_all(&mut data, program_id.as_bytes());
    let t = RequestBuilder::new(program_id.dup(), payer.dup()).instruction(ix).signer(
        data_account.dup(),
    ).signer(required.dup()).accounts(metas).args(data).build();
    t
}

/// Did an account read fail because the address holds no data?
pub fn read_is_not_found(res: &Result<ValueAccount, ClientError>) -> (r: bool)
    ensures
        r == (match res {
            Result::Err(e) => e is NotFound,
            Result::Ok(_) => false,
        }),
{
    match res {
        Result::Err(e) => *e == ClientError::NotFound,
        Result::Ok(_) => false,
    }
}

/// Holds the optional data account exactly twice the initializer's input?
pub fn optional_value_ok(a: &ValueAccount, input: u64) -> (r: bool)
    requires
        input <= u64::MAX / 2,
    ensures
        r == (a.data as nat == 2 * input as nat),
{
    a.data == 2 * input
}

} // verus!
