use vstd::prelude::*;
use crate::model::{
    answered_count, dimensions_fit, expected_results, flat_of, kept, lemma_kept_push, min_nat,
    neighbor_of, occupied, window,
};
use crate::types::{QueryBatch, SearchResult};

verus! {

/// The number of slots of a run that hold no neighbour.
pub open spec fn absent_count<S>(w: Seq<(S, Option<u64>)>) -> nat {
    w.filter(|s: (S, Option<u64>)| !occupied(s)).len()
}

/// The positions, in increasing order, of the occupied slots of a run.
pub open spec fn kept_positions<S>(w: Seq<(S, Option<u64>)>) -> Seq<int>
    decreases w.len(),
{
    if w.len() == 0 {
        Seq::empty()
    } else {
        let rest = kept_positions(w.drop_last());
        if occupied(w.last()) {
            rest.push(w.len() - 1)
        } else {
            rest
        }
    }
}

/// A batch of `n` vectors of `dim` components each flattens to `n * dim`
/// components.
pub proof fn lemma_flat_len<S>(rows: Seq<Seq<S>>, dim: nat)
    requires
        forall|i: int| 0 <= i < rows.len() ==> (#[trigger] rows[i]).len() == dim,
    ensures
        flat_of(rows).len() == rows.len() * dim,
    decreases rows.len(),
{
    if rows.len() > 0 {
        let rest = rows.drop_first();
        assert forall|i: int| 0 <= i < rest.len() implies (#[trigger] rest[i]).len() == dim by {
            assert(rest[i] == rows[i + 1]);
        }
        lemma_flat_len(rest, dim);
        assert(rows.len() * dim == dim + rest.len() * dim) by (nonlinear_arith)
            requires
                rest.len() == rows.len() - 1,
        ;
    }
}

/// A batch whose vectors all have the index's dimensionality passes the
/// dimension check.
pub proof fn law_uniform_batch_accepted<S>(rows: Seq<Seq<S>>, dim: nat)
    requires
        dim > 0,
        forall|i: int| 0 <= i < rows.len() ==> (#[trigger] rows[i]).len() == dim,
    ensures
        dimensions_fit(flat_of(rows).len(), dim),
{
    lemma_flat_len(rows, dim);
    assert((rows.len() * dim) % dim == 0) by (nonlinear_arith)
        requires
            dim > 0,
    ;
}

/// For a valid batch of `n` vectors, answered by the engine with `k` slots
/// per query, the response holds exactly `n` results, and result `i`
/// carries query vector `i`.
pub proof fn law_order_preserved<S>(
    rows: Seq<Seq<S>>,
    dim: nat,
    k: nat,
    d: Seq<S>,
    l: Seq<Option<u64>>,
)
    requires
        dim > 0,
        forall|i: int| 0 <= i < rows.len() ==> (#[trigger] rows[i]).len() == dim,
        d.len() == (flat_of(rows).len() / dim) * k,
        l.len() == (flat_of(rows).len() / dim) * k,
    ensures
        expected_results(rows, k, d, l).len() == rows.len(),
        forall|i: int|
            0 <= i < rows.len() ==> (#[trigger] expected_results(rows, k, d, l)[i]).1 == rows[i],
{
    let n = rows.len();
    lemma_flat_len(rows, dim);
    assert(((n * dim) as int) / (dim as int) == n) by (nonlinear_arith)
        requires
            dim > 0,
    ;
    if k > 0 {
        assert(((n * k + k - 1) as int) / (k as int) == n) by (nonlinear_arith)
            requires
                k > 0,
        ;
    }
    assert(answered_count(n, k, min_nat(d.len(), l.len())) == n);
}

/// Dropping the empty slots of a run: the neighbours kept and the empty
/// slots together account for every slot.
pub proof fn lemma_kept_and_absent<S>(w: Seq<(S, Option<u64>)>)
    ensures
        kept(w).len() + absent_count(w) == w.len(),
    decreases w.len(),
{
    reveal(Seq::filter);
    if w.len() > 0 {
        lemma_kept_and_absent(w.drop_last());
    }
}

/// In every result, the empty slots of the query's window are dropped: the
/// neighbours and the empty slots add up to the window, which has at most
/// `k` slots, so a window with an empty slot yields fewer than `k`
/// neighbours.
pub proof fn law_empty_slots_dropped<S>(
    rows: Seq<Seq<S>>,
    k: nat,
    d: Seq<S>,
    l: Seq<Option<u64>>,
    i: int,
)
    requires
        0 <= i < expected_results(rows, k, d, l).len(),
    ensures
        expected_results(rows, k, d, l)[i].0.len() + absent_count(window(d, l, k, i as nat)) == window(
            d,
            l,
            k,
            i as nat,
        ).len(),
        window(d, l, k, i as nat).len() <= k,
        expected_results(rows, k, d, l)[i].0.len() <= k,
        absent_count(window(d, l, k, i as nat)) > 0 ==> expected_results(rows, k, d, l)[i].0.len()
            < k,
{
    let w = window(d, l, k, i as nat);
    lemma_kept_and_absent(w);
    if k > 0 {
        assert(i * k < min_nat(d.len(), l.len())) by (nonlinear_arith)
            requires
                k > 0,
                0 <= i,
                i < (min_nat(d.len(), l.len()) + k - 1) / k as int,
        ;
    }
}

/// The neighbours kept from a run are its occupied slots in their original
/// order: neighbour `j` comes from slot `kept_positions(w)[j]`, and these
/// positions strictly increase.
pub proof fn lemma_kept_in_order<S>(w: Seq<(S, Option<u64>)>)
    ensures
        kept_positions(w).len() == kept(w).len(),
        forall|j: int|
            0 <= j < kept(w).len() ==> 0 <= #[trigger] kept_positions(w)[j] < w.len() && occupied(
                w[kept_positions(w)[j]],
            ) && kept(w)[j] == neighbor_of(w[kept_positions(w)[j]]),
        forall|a: int, b: int|
            0 <= a < b < kept(w).len() ==> #[trigger] kept_positions(w)[a] < #[trigger] kept_positions(
                w,
            )[b],
    decreases w.len(),
{
    if w.len() > 0 {
        let s = w.drop_last();
        lemma_kept_in_order(s);
        assert(w == s.push(w.last()));
        lemma_kept_push(s, w.last());
        assert forall|j: int| 0 <= j < kept_positions(s).len() implies #[trigger] w[kept_positions(
            s,
        )[j]] == s[kept_positions(s)[j]] by {}
    }
}

/// Within each result, the neighbours keep the order in which the engine
/// ranked them: they are the occupied slots of the query's window, in slot
/// order, with nothing re-sorted.
pub proof fn law_ranking_kept<S>(rows: Seq<Seq<S>>, k: nat, d: Seq<S>, l: Seq<Option<u64>>, i: int)
    requires
        0 <= i < expected_results(rows, k, d, l).len(),
    ensures
        ({
            let w = window(d, l, k, i as nat);
            let ns = expected_results(rows, k, d, l)[i].0;
            let p = kept_positions(w);
            &&& p.len() == ns.len()
            &&& forall|j: int|
                0 <= j < ns.len() ==> 0 <= #[trigger] p[j] < w.len() && ns[j] == neighbor_of(
                    w[p[j]],
                )
            &&& forall|a: int, b: int| 0 <= a < b < ns.len() ==> #[trigger] p[a] < #[trigger] p[b]
        }),
{
    lemma_kept_in_order(window(d, l, k, i as nat));
}

/// The same batch against the same engine answer gives the same response:
/// the executor reads its inputs only.
pub proof fn law_repeatable<S>(
    b1: QueryBatch<S>,
    b2: QueryBatch<S>,
    f1: SearchResult<S>,
    f2: SearchResult<S>,
)
    requires
        b1.rows() == b2.rows(),
        b1.k == b2.k,
        f1.distances@ == f2.distances@,
        f1.labels@ == f2.labels@,
    ensures
        flat_of(b1.rows()) == flat_of(b2.rows()),
        expected_results(b1.rows(), b1.k as nat, f1.distances@, f1.labels@) == expected_results(
            b2.rows(),
            b2.k as nat,
            f2.distances@,
            f2.labels@,
        ),
{
}

} // verus!
