use vstd::prelude::*;

use crate::ClientError;

verus! {

/// A batch of workloads, each the pair of the program identifier it targets
/// and its effect on that program's remote state.
pub type Workloads<S> = Seq<(Seq<u8>, spec_fn(S) -> S)>;

/// Workloads are independent when no two of them target the same program.
pub open spec fn distinct_targets<S>(ws: Workloads<S>) -> bool {
    forall|i: int, j: int| #![trigger ws[i], ws[j]] 0 <= i < j < ws.len() ==> ws[i].0 != ws[j].0
}

/// Does some workload of the batch target program `k`?
pub open spec fn targets<S>(ws: Workloads<S>, k: Seq<u8>) -> bool {
    exists|i: int| #![trigger ws[i]] 0 <= i < ws.len() && ws[i].0 == k
}

/// Every target of the batch is a program the state knows.
pub open spec fn targets_in_dom<S>(m: Map<Seq<u8>, S>, ws: Workloads<S>) -> bool {
    forall|i: int| #![trigger ws[i]] 0 <= i < ws.len() ==> m.dom().contains(ws[i].0)
}

/// The remote state after a sequential run: workloads applied one after
/// another, each to the state its program holds when its turn comes.
pub open spec fn seq_run<S>(m: Map<Seq<u8>, S>, ws: Workloads<S>) -> Map<Seq<u8>, S>
    decreases ws.len(),
{
    if ws.len() == 0 {
        m
    } else {
        seq_run(m.insert(ws[0].0, ws[0].1(m[ws[0].0])), ws.drop_first())
    }
}

/// The remote state after a concurrent run: every worker applies its
/// workload to the initial state of its own program, all in parallel.
pub open spec fn conc_run<S>(m: Map<Seq<u8>, S>, ws: Workloads<S>) -> Map<Seq<u8>, S> {
    Map::new(
        |k: Seq<u8>| m.dom().contains(k),
        |k: Seq<u8>|
            if targets(ws, k) {
                let i = choose|i: int| #![trigger ws[i]] 0 <= i < ws.len() && ws[i].0 == k;
                ws[i].1(m[k])
            } else {
                m[k]
            },
    )
}

/// Sequential and concurrent runs over one batch of independent workloads
/// converge to the same final remote state: per program identifier, the
/// final state is its own workload applied to its initial state, untouched
/// programs keep their state, and the two modes agree as maps.
pub proof fn lemma_modes_converge<S>(m: Map<Seq<u8>, S>, ws: Workloads<S>)
    requires
        distinct_targets(ws),
        targets_in_dom(m, ws),
    ensures
        seq_run(m, ws).dom() == m.dom(),
        forall|i: int|
            #![trigger ws[i]]
            0 <= i < ws.len() ==> seq_run(m, ws)[ws[i].0] == ws[i].1(m[ws[i].0]),
        forall|k: Seq<u8>|
            #![trigger seq_run(m, ws)[k]]
            m.dom().contains(k) && !targets(ws, k) ==> seq_run(m, ws)[k] == m[k],
        seq_run(m, ws) == conc_run(m, ws),
    decreases ws.len(),
{
    if ws.len() == 0 {
        assert(seq_run(m, ws).dom() =~= m.dom());
        assert(seq_run(m, ws) =~= conc_run(m, ws));
    } else {
        let k0 = ws[0].0;
        let f0 = ws[0].1;
        let m1 = m.insert(k0, f0(m[k0]));
        let rest = ws.drop_first();
        assert(m1.dom() =~= m.dom());
        assert forall|i: int| 0 <= i < rest.len() implies m1.dom().contains(
            #[trigger] rest[i].0,
        ) by {
            assert(rest[i] == ws[i + 1]);
        }
        lemma_modes_converge(m1, rest);
        assert(seq_run(m, ws) == seq_run(m1, rest));

        // No later workload touches the first target again.
        assert(!targets(rest, k0)) by {
            assert forall|i: int| 0 <= i < rest.len() implies rest[i].0 != k0 by {
                assert(rest[i] == ws[i + 1]);
            }
        }
        assert(seq_run(m1, rest)[k0] == m1[k0]);

        assert forall|i: int| #![trigger ws[i]] 0 <= i < ws.len() implies seq_run(m, ws)[ws[i].0]
            == ws[i].1(m[ws[i].0]) by {
            if i == 0 {
            } else {
                assert(rest[i - 1] == ws[i]);
                assert(ws[i].0 != k0);
                assert(m1[ws[i].0] == m[ws[i].0]);
            }
        }
        assert forall|k: Seq<u8>| #![trigger seq_run(m, ws)[k]]
            m.dom().contains(k) && !targets(ws, k) implies seq_run(m, ws)[k] == m[k] by {
            assert forall|i: int| 0 <= i < rest.len() implies rest[i].0 != k by {
                assert(rest[i] == ws[i + 1]);
                assert(ws[i + 1].0 != k);
            }
            assert(!targets(rest, k));
            assert(k != k0);
        }
        assert(seq_run(m, ws) =~= conc_run(m, ws)) by {
            assert forall|k: Seq<u8>| m.dom().contains(k) implies seq_run(m, ws)[k] == conc_run(
                m,
                ws,
            )[k] by {
                if targets(ws, k) {
                    let i = choose|i: int| #![trigger ws[i]] 0 <= i < ws.len() && ws[i].0 == k;
                    assert(seq_run(m, ws)[ws[i].0] == ws[i].1(m[ws[i].0]));
                    assert(conc_run(m, ws)[k] == ws[i].1(m[k]));
                } else {
                }
            }
        }
    }
}

/// The join-phase aggregation of the concurrent mode: every worker's result
/// is inspected after all joins, and the first failure found is reported.
pub fn first_failure(results: &Vec<Result<(), ClientError>>) -> (r: Option<ClientError>)
    ensures
        r is None <==> (forall|i: int| 0 <= i < results@.len() ==> results@[i] is Ok),
        match r {
            Some(e) => exists|i: int|
                0 <= i < results@.len() && results@[i] == Err::<(), ClientError>(e) && (forall|
                    j: int,
                |
                    0 <= j < i ==> results@[j] is Ok),
            None => true,
        },
{
    let mut i: usize = 0;
    while i < results.len()
        invariant
            i <= results@.len(),
            forall|j: int| 0 <= j < i ==> results@[j] is Ok,
        decreases results@.len() - i,
    {
        match &results[i] {
            Ok(_) => {},
            Err(e) => {
                return Option::Some(*e);
            },
        }
        i = i + 1;
    }
    Option::None
}

} // verus!
