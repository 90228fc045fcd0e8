use vstd::prelude::*;
use crate::types::Neighbor;

verus! {

/// All components of the batch, vector after vector.
pub open spec fn flat_of<S>(rows: Seq<Seq<S>>) -> Seq<S> {
    rows.flatten()
}

/// A batch of `len` components is accepted by an index of dimensionality
/// `dim` when it splits into whole vectors of that size.
pub open spec fn dimensions_fit(len: nat, dim: nat) -> bool {
    dim > 0 && len % dim == 0
}

/// The smaller of two lengths.
pub open spec fn min_nat(a: nat, b: nat) -> nat {
    if a <= b {
        a
    } else {
        b
    }
}

/// The slots of query `i` that both engine buffers cover: slots `i*k`
/// up to `(i+1)*k`, cut at the end of the shorter buffer.
pub open spec fn window<S>(d: Seq<S>, l: Seq<Option<u64>>, k: nat, i: nat) -> Seq<(S, Option<u64>)> {
    let lo = i * k;
    slots(d, l, lo, min_nat(lo + k, min_nat(d.len(), l.len())))
}

/// Slots `lo` up to `hi` of the engine buffers, as (distance, label) pairs.
pub open spec fn slots<S>(d: Seq<S>, l: Seq<Option<u64>>, lo: nat, hi: nat) -> Seq<(S, Option<u64>)> {
    Seq::new((hi - lo) as nat, |j: int| (d[lo + j], l[lo + j]))
}

/// A slot holds a neighbour when its label is present.
pub open spec fn occupied<S>(slot: (S, Option<u64>)) -> bool {
    slot.1 is Some
}

/// The neighbour held by an occupied slot.
pub open spec fn neighbor_of<S>(slot: (S, Option<u64>)) -> Neighbor<S> {
    Neighbor { id: slot.1->0, score: slot.0 }
}

/// The neighbours of a run of slots: the occupied slots, in order.
pub open spec fn kept<S>(slots: Seq<(S, Option<u64>)>) -> Seq<Neighbor<S>> {
    slots.filter(|s: (S, Option<u64>)| occupied(s)).map_values(|s: (S, Option<u64>)| neighbor_of(s))
}

/// How many of `n` queries get an answer when the engine buffers cover `m`
/// slots of `k` each: all of them for `k == 0`, else those whose window
/// starts inside the buffers.
pub open spec fn answered_count(n: nat, k: nat, m: nat) -> nat {
    if k == 0 {
        n
    } else {
        min_nat(n, ((m + k - 1) / k as int) as nat)
    }
}

/// The response for the batch `rows` with `k` neighbours per query, given
/// what the engine returned.
pub open spec fn expected_results<S>(rows: Seq<Seq<S>>, k: nat, d: Seq<S>, l: Seq<Option<u64>>) -> Seq<
    (Seq<Neighbor<S>>, Seq<S>),
> {
    Seq::new(
        answered_count(rows.len(), k, min_nat(d.len(), l.len())),
        |i: int| (kept(window(d, l, k, i as nat)), rows[i]),
    )
}

/// Keeping the occupied slots of a run extended by one slot extends the
/// neighbours by that slot's neighbour, if it holds one.
pub proof fn lemma_kept_push<S>(s: Seq<(S, Option<u64>)>, x: (S, Option<u64>))
    ensures
        occupied(x) ==> kept(s.push(x)) == kept(s).push(neighbor_of(x)),
        !occupied(x) ==> kept(s.push(x)) == kept(s),
{
    let p = |t: (S, Option<u64>)| occupied(t);
    let f = |t: (S, Option<u64>)| neighbor_of(t);
    reveal(Seq::filter);
    assert(s.push(x).drop_last() =~= s);
    assert(s.push(x).filter(p) == if p(x) {
        s.filter(p).push(x)
    } else {
        s.filter(p)
    });
    if occupied(x) {
        assert(s.filter(p).push(x).map_values(f) =~= s.filter(p).map_values(f).push(f(x)));
    }
}

} // verus!
