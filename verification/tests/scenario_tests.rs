use program_client::ClientError;
use program_client::accounts::{Counter, ValueAccount};
use program_client::codec::{encode_u64_le, read_le};
use program_client::events::Subscription;
use program_client::keys::Pubkey;
use program_client::request::Transaction;
use program_client::scenarios::{
    basic_2_create_request, basic_4_counter_address, basic_4_increment_request,
    basic_4_init_request, composite_init_request, composite_update_request, counter_state_ok,
    event_matches, events_request, optional_init_request, optional_pda_address, optional_value_ok,
    read_is_not_found, value_is,
};

fn key(b: u8) -> Pubkey {
    Pubkey::new(vec![b; 32])
}

/// The simulated remote state: stored bytes per address.
type Ledger = Vec<(Vec<u8>, Vec<u8>)>;

fn store(ledger: &mut Ledger, key: &Pubkey, bytes: Vec<u8>) {
    let k = key.as_bytes().clone();
    for entry in ledger.iter_mut() {
        if entry.0 == k {
            entry.1 = bytes;
            return;
        }
    }
    ledger.push((k, bytes));
}

fn load(ledger: &Ledger, key: &Pubkey) -> Result<Vec<u8>, ClientError> {
    let k = key.as_bytes();
    for entry in ledger.iter() {
        if &entry.0 == k {
            return Ok(entry.1.clone());
        }
    }
    Err(ClientError::NotFound)
}

fn counter_bytes(disc: &[u8], authority: &Pubkey, count: u64) -> Vec<u8> {
    let mut out: Vec<u8> = Vec::new();
    out.extend_from_slice(disc);
    out.extend_from_slice(authority.as_bytes());
    out.extend_from_slice(&encode_u64_le(count));
    out
}

fn value_account_bytes(disc: &[u8], value: u64) -> Vec<u8> {
    let mut out: Vec<u8> = Vec::new();
    out.extend_from_slice(disc);
    out.extend_from_slice(&encode_u64_le(value));
    out
}

#[test]
fn counter_scenario_initializes_then_increments() {
    let pid = key(40);
    let payer = key(1);
    let init_method = vec![11u8; 8];
    let inc_method = vec![12u8; 8];
    let counter_disc = vec![21u8; 8];
    let mut ledger: Ledger = Vec::new();

    // The counter lives at the program's derived address.
    let (counter, _bump) = basic_4_counter_address(&pid).expect("no viable bump seed");

    // Submit the initializing request; the simulated program creates the
    // counter with the paying authority and a count of zero.
    let t: Transaction = basic_4_init_request(&pid, &payer, &counter, &init_method);
    assert_eq!(t.instructions.len(), 1);
    assert_eq!(t.instructions[0].data, init_method);
    let authority = &t.instructions[0].accounts[1].pubkey;
    store(&mut ledger, &counter, counter_bytes(&counter_disc, authority, 0));

    let c: Counter = Counter::decode(&counter_disc, &load(&ledger, &counter).unwrap()).unwrap();
    assert!(counter_state_ok(&c, &payer, 0));

    // Submit the incrementing request; the simulated program adds one.
    let t = basic_4_increment_request(&pid, &payer, &counter, &inc_method);
    assert_eq!(t.instructions[0].data, inc_method);
    let stored = load(&ledger, &counter).unwrap();
    let old = Counter::decode(&counter_disc, &stored).unwrap();
    store(&mut ledger, &counter, counter_bytes(&counter_disc, &old.authority, old.count + 1));

    let c = Counter::decode(&counter_disc, &load(&ledger, &counter).unwrap()).unwrap();
    assert!(counter_state_ok(&c, &payer, 1));
    assert!(!counter_state_ok(&c, &payer, 0));
}

#[test]
fn created_counter_keeps_its_authority() {
    let pid = key(41);
    let payer = key(2);
    let counter = key(3);
    let create_method = vec![13u8; 8];
    let counter_disc = vec![21u8; 8];
    let mut ledger: Ledger = Vec::new();

    let t = basic_2_create_request(&pid, &payer, &counter, &create_method);
    // The argument payload carries the method tag and then the authority.
    assert_eq!(&t.instructions[0].data[0..8], &create_method[..]);
    assert_eq!(&t.instructions[0].data[8..40], &payer.as_bytes()[..]);
    assert_eq!(t.signers.len(), 2);
    store(&mut ledger, &counter, counter_bytes(&counter_disc, &payer, 0));

    let c = Counter::decode(&counter_disc, &load(&ledger, &counter).unwrap()).unwrap();
    assert!(counter_state_ok(&c, &payer, 0));
}

#[test]
fn composite_scenario_updates_both_members() {
    let pid = key(42);
    let payer = key(1);
    let dummy_a = key(4);
    let dummy_b = key(5);
    let init_method = vec![14u8; 8];
    let update_method = vec![15u8; 8];
    let value_disc = vec![22u8; 8];
    let mut ledger: Ledger = Vec::new();

    // Initialize: the simulated program zeroes both member accounts.
    let t = composite_init_request(&pid, &payer, &dummy_a, &dummy_b, 890_880, 16, &init_method);
    assert_eq!(t.instructions.len(), 3);
    assert_eq!(t.signers.len(), 3);
    store(&mut ledger, &dummy_a, value_account_bytes(&value_disc, 0));
    store(&mut ledger, &dummy_b, value_account_bytes(&value_disc, 0));

    let a = ValueAccount::decode(&value_disc, &load(&ledger, &dummy_a).unwrap()).unwrap();
    let b = ValueAccount::decode(&value_disc, &load(&ledger, &dummy_b).unwrap()).unwrap();
    assert!(value_is(&a, 0) && value_is(&b, 0));

    // Update: the simulated program stores the two carried values.
    let t = composite_update_request(&pid, &payer, &dummy_a, &dummy_b, &update_method, 1234, 4321);
    let data = &t.instructions[0].data;
    assert_eq!(data.len(), 24);
    let new_a = read_le(data, 8, 8);
    let new_b = read_le(data, 16, 8);
    store(&mut ledger, &dummy_a, value_account_bytes(&value_disc, new_a));
    store(&mut ledger, &dummy_b, value_account_bytes(&value_disc, new_b));

    let a = ValueAccount::decode(&value_disc, &load(&ledger, &dummy_a).unwrap()).unwrap();
    let b = ValueAccount::decode(&value_disc, &load(&ledger, &dummy_b).unwrap()).unwrap();
    assert!(value_is(&a, 1234));
    assert!(value_is(&b, 4321));
}

#[test]
fn optional_scenario_doubles_the_value_and_leaves_the_pda_absent() {
    let pid = key(43);
    let payer = key(1);
    let data_account = key(6);
    let required = key(7);
    let init_method = vec![16u8; 8];
    let value_disc = vec![23u8; 8];
    let input: u64 = 10;
    let mut ledger: Ledger = Vec::new();

    let t = optional_init_request(
        &pid,
        &payer,
        &data_account,
        &required,
        890_880,
        16,
        &init_method,
        input,
    );
    assert_eq!(t.instructions.len(), 2);
    assert_eq!(t.signers.len(), 3);
    // The simulated program zeroes the required account and stores twice
    // the carried value in the optional data account.
    let carried = read_le(&t.instructions[1].data, 8, 8);
    store(&mut ledger, &required, value_account_bytes(&value_disc, 0));
    store(&mut ledger, &data_account, value_account_bytes(&value_disc, carried * 2));

    let r = ValueAccount::decode(&value_disc, &load(&ledger, &required).unwrap()).unwrap();
    assert!(value_is(&r, 0));

    // The optional derived account was never supplied, so its read fails.
    let (pda, _bump) = optional_pda_address(&pid, &data_account).expect("no viable bump seed");
    let pda_read: Result<ValueAccount, ClientError> = match load(&ledger, &pda) {
        Ok(bytes) => ValueAccount::decode(&value_disc, &bytes),
        Err(e) => Err(e),
    };
    assert!(read_is_not_found(&pda_read));

    let a = ValueAccount::decode(&value_disc, &load(&ledger, &data_account).unwrap()).unwrap();
    assert!(optional_value_ok(&a, input));
    assert_eq!(a.data, 20);
}

#[test]
fn events_scenario_delivers_exactly_once() {
    let pid = key(44);
    let payer = key(1);
    let method = vec![17u8; 8];
    let event_disc = vec![24u8; 8];

    // Subscribe before triggering.
    let mut sub = Subscription::subscribe(key(44), event_disc.clone());

    let t = events_request(&pid, &payer, &method);
    assert_eq!(t.instructions.len(), 1);
    assert_eq!(t.instructions[0].accounts.len(), 0);

    // The triggered action emits one event with fields {data: 5, label: "hello"}.
    let label = vec![104u8, 101u8, 108u8, 108u8, 111u8];
    let mut payload: Vec<u8> = Vec::new();
    payload.extend_from_slice(&event_disc);
    payload.extend_from_slice(&encode_u64_le(5));
    payload.extend_from_slice(&encode_u64_le(label.len() as u64)[0..4]);
    payload.extend_from_slice(&label);

    // The delivery context hands decoded events to the hand-off queue.
    let mut handoff = Vec::new();
    if let Some(e) = sub.deliver(&pid, &payload) {
        handoff.push(e);
    }
    assert_eq!(handoff.len(), 1);
    assert!(event_matches(&handoff[0], 5, &label));

    // A notification from another program is not delivered.
    assert!(sub.deliver(&key(45), &payload).is_none());
    // A malformed notification is dropped silently.
    assert!(sub.deliver(&pid, &vec![0u8; 3]).is_none());

    // After unsubscribe, nothing further is delivered.
    sub.unsubscribe();
    assert!(!sub.is_live());
    assert!(sub.deliver(&pid, &payload).is_none());
    assert_eq!(handoff.len(), 1);
}

#[test]
fn derived_addresses_are_deterministic_and_fresh() {
    let pid = key(50);
    let (first, first_bump) = basic_4_counter_address(&pid).expect("no viable bump seed");
    let (second, second_bump) = basic_4_counter_address(&pid).expect("no viable bump seed");
    // Same seeds and program: same derived address and bump.
    assert_eq!(first.as_bytes(), second.as_bytes());
    assert_eq!(first_bump, second_bump);
    // The derived key is a full-length key and not the program's own.
    assert_eq!(first.as_bytes().len(), 32);
    assert_ne!(first.as_bytes(), pid.as_bytes());
    // Different programs derive different addresses.
    let (other, _) = basic_4_counter_address(&key(51)).expect("no viable bump seed");
    assert_ne!(first.as_bytes(), other.as_bytes());
}

#[test]
fn funding_instruction_targets_the_system_program() {
    let pid = key(52);
    let payer = key(1);
    let dummy_a = key(2);
    let dummy_b = key(3);
    let t = composite_init_request(&pid, &payer, &dummy_a, &dummy_b, 55, 500, &vec![9u8; 8]);
    let ix = &t.instructions[0];
    // The funding instruction goes to the system program, not to the payer
    // or to the target program.
    assert_eq!(ix.program_id.as_bytes(), &vec![0u8; 32]);
    assert_eq!(ix.accounts.len(), 2);
    assert_eq!(ix.accounts[0].pubkey.as_bytes(), payer.as_bytes());
    assert!(ix.accounts[0].is_signer && ix.accounts[0].is_writable);
    assert_eq!(ix.accounts[1].pubkey.as_bytes(), dummy_a.as_bytes());
    assert!(ix.accounts[1].is_signer && ix.accounts[1].is_writable);
    // The wire bytes were produced by the encoder, not echoed arguments.
    assert!(!ix.data.is_empty());
    assert_ne!(ix.data, vec![9u8; 8]);
}
