use program_client::keys::{AccountMeta, Pubkey, system_program_id};
use program_client::request::{Instruction, RequestBuilder, Transaction};

fn key(b: u8) -> Pubkey {
    Pubkey::new(vec![b; 32])
}

fn plain_instruction(program: u8, data: Vec<u8>) -> Instruction {
    Instruction { program_id: key(program), accounts: Vec::new(), data }
}

#[test]
fn built_transaction_keeps_instruction_order_and_signers() {
    let payer = key(1);
    let extra_1 = key(2);
    let extra_2 = key(3);
    let t: Transaction = RequestBuilder::new(key(9), payer)
        .instruction(plain_instruction(7, vec![10u8, 11u8]))
        .instruction(plain_instruction(8, vec![20u8]))
        .signer(extra_1)
        .signer(extra_2)
        .build();
    // Exactly the two added instructions, in insertion order, and no
    // program instruction since no argument payload was attached.
    assert_eq!(t.instructions.len(), 2);
    assert_eq!(t.instructions[0].program_id.as_bytes(), key(7).as_bytes());
    assert_eq!(t.instructions[0].data, vec![10u8, 11u8]);
    assert_eq!(t.instructions[1].program_id.as_bytes(), key(8).as_bytes());
    assert_eq!(t.instructions[1].data, vec![20u8]);
    // Signed by the payer first, then both extra signers in order.
    assert_eq!(t.signers.len(), 3);
    assert_eq!(t.signers[0].as_bytes(), key(1).as_bytes());
    assert_eq!(t.signers[1].as_bytes(), key(2).as_bytes());
    assert_eq!(t.signers[2].as_bytes(), key(3).as_bytes());
}

#[test]
fn attached_payload_becomes_final_instruction() {
    let payer = key(1);
    let target = key(5);
    let mut metas: Vec<AccountMeta> = Vec::new();
    metas.push(AccountMeta::new(key(6), false, true));
    let t = RequestBuilder::new(target, payer)
        .instruction(plain_instruction(7, vec![1u8]))
        .accounts(metas)
        .args(vec![42u8, 43u8])
        .build();
    assert_eq!(t.instructions.len(), 2);
    assert_eq!(t.instructions[1].program_id.as_bytes(), key(5).as_bytes());
    assert_eq!(t.instructions[1].accounts.len(), 1);
    assert_eq!(t.instructions[1].accounts[0].pubkey.as_bytes(), key(6).as_bytes());
    assert!(!t.instructions[1].accounts[0].is_signer);
    assert!(t.instructions[1].accounts[0].is_writable);
    assert_eq!(t.instructions[1].data, vec![42u8, 43u8]);
    assert_eq!(t.signers.len(), 1);
}

#[test]
fn missing_required_signer_is_a_signing_error() {
    let payer = key(1);
    let mut metas: Vec<AccountMeta> = Vec::new();
    metas.push(AccountMeta::new(key(6), true, true));
    let t = RequestBuilder::new(key(9), payer).accounts(metas).args(vec![1u8]).build();
    // The reference for key 6 must sign, but only the payer does.
    match t.check_signers() {
        Err(e) => assert_eq!(e, program_client::ClientError::Signing),
        Ok(()) => panic!("accepted a transaction missing a required signer"),
    }
}

#[test]
fn supplied_signers_cover_the_required_set() {
    let payer = key(1);
    let mut metas: Vec<AccountMeta> = Vec::new();
    metas.push(AccountMeta::new(key(6), true, true));
    metas.push(AccountMeta::new(key(7), false, true));
    let t = RequestBuilder::new(key(9), payer)
        .signer(key(6))
        .accounts(metas)
        .args(vec![1u8])
        .build();
    assert!(t.check_signers().is_ok());
}

#[test]
fn system_program_id_is_all_zeroes() {
    let id = system_program_id();
    assert_eq!(id.as_bytes(), &vec![0u8; 32]);
}
