use program_client::ClientError;
use program_client::harness::first_failure;

#[test]
fn all_ok_aggregates_to_none() {
    let results: Vec<Result<(), ClientError>> = vec![Ok(()), Ok(()), Ok(())];
    assert!(first_failure(&results).is_none());
}

#[test]
fn first_failure_is_reported() {
    let results: Vec<Result<(), ClientError>> =
        vec![Ok(()), Err(ClientError::Submission), Err(ClientError::NotFound)];
    assert_eq!(first_failure(&results), Some(ClientError::Submission));
}

#[test]
fn empty_batch_aggregates_to_none() {
    let results: Vec<Result<(), ClientError>> = Vec::new();
    assert!(first_failure(&results).is_none());
}

/// The simulated remote state: one stored number per program identifier.
type Ledger = Vec<(u8, u64)>;

fn apply(ledger: &mut Ledger, target: u8, f: fn(u64) -> u64) {
    for entry in ledger.iter_mut() {
        if entry.0 == target {
            entry.1 = f(entry.1);
            return;
        }
    }
}

fn sorted(ledger: &Ledger) -> Ledger {
    let mut out = ledger.clone();
    out.sort();
    out
}

#[test]
fn workload_order_does_not_change_the_final_state() {
    // Two independent workloads over disjoint programs: running them in
    // either order, as the sequential and the concurrent mode would,
    // converges to the same final state.
    let double: fn(u64) -> u64 = |v| v * 2;
    let add_three: fn(u64) -> u64 = |v| v + 3;

    let mut first: Ledger = vec![(1u8, 10u64), (2u8, 20u64), (3u8, 30u64)];
    apply(&mut first, 1, double);
    apply(&mut first, 2, add_three);

    let mut second: Ledger = vec![(1u8, 10u64), (2u8, 20u64), (3u8, 30u64)];
    apply(&mut second, 2, add_three);
    apply(&mut second, 1, double);

    assert_eq!(sorted(&first), sorted(&second));
    assert_eq!(sorted(&first), vec![(1u8, 20u64), (2u8, 23u64), (3u8, 30u64)]);
}
