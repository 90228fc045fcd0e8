use vstd::prelude::*;
use crate::model::{
    answered_count, expected_results, kept, lemma_kept_push, min_nat, slots, window,
};
use crate::types::{Neighbor, QueryBatch, QueryError, Response, SearchResult, SingleResult};

verus! {

/// The neighbours held in slots `lo` up to `hi`, in slot order.
fn neighbors_in<S: Copy>(d: &Vec<S>, l: &Vec<Option<u64>>, lo: usize, hi: usize) -> (r: Vec<Neighbor<S>>)
    requires
        lo <= hi,
        hi <= d.len(),
        hi <= l.len(),
    ensures
        r@ == kept(slots(d@, l@, lo as nat, hi as nat)),
{
    let mut out: Vec<Neighbor<S>> = Vec::new();
    let mut j: usize = lo;
    proof {
        assert(slots(d@, l@, lo as nat, lo as nat) =~= Seq::empty());
        reveal(Seq::filter);
        assert(kept(slots(d@, l@, lo as nat, lo as nat)) =~= Seq::empty());
    }
    while j < hi
        invariant
            lo <= j <= hi,
            hi <= d.len(),
            hi <= l.len(),
            out@ == kept(slots(d@, l@, lo as nat, j as nat)),
        decreases hi - j,
    {
        proof {
            assert(slots(d@, l@, lo as nat, (j + 1) as nat) =~= slots(d@, l@, lo as nat, j as nat).push(
                (d@[j as int], l@[j as int]),
            ));
            lemma_kept_push(slots(d@, l@, lo as nat, j as nat), (d@[j as int], l@[j as int]));
        }
        match l[j] {
            Some(id) => {
                out.push(Neighbor { id, score: d[j] });
            },
            None => {},
        }
        j += 1;
    }
    out
}

/// A copy of a query vector.
fn copy_row<S: Copy>(v: &Vec<S>) -> (r: Vec<S>)
    ensures
        r@ == v@,
{
    let mut out: Vec<S> = Vec::new();
    let mut j: usize = 0;
    while j < v.len()
        invariant
            j <= v.len(),
            out@ == v@.take(j as int),
        decreases v.len() - j,
    {
        out.push(v[j]);
        proof {
            assert(v@.take(j + 1) =~= v@.take(j as int).push(v@[j as int]));
        }
        j += 1;
    }
    proof {
        assert(v@.take(j as int) =~= v@);
    }
    out
}

/// The number of answered queries is where the loop over windows stops:
/// at the last query, or at the first window that starts past the buffers.
proof fn lemma_answered_count(i: nat, n: nat, k: nat, m: nat)
    requires
        k > 0,
        i <= n,
        i == 0 || (i - 1) * k < m,
        i == n || i * k >= m,
    ensures
        i == answered_count(n, k, m),
{
    let c = (m + k - 1) / k as int;
    if i > 0 {
        assert(i <= c) by (nonlinear_arith)
            requires
                k > 0,
                (i - 1) * k < m,
                c == (m + k - 1) / k as int,
        ;
    }
    if i * k >= m {
        assert(c <= i) by (nonlinear_arith)
            requires
                k > 0,
                i * k >= m,
                c == (m + k - 1) / k as int,
        ;
    }
}

/// Cuts what the engine returned into one result per query of `batch`: the
/// neighbours of its window, nearest first as the engine ranked them, and the
/// query vector itself.
///
/// With `k == 0` every query is answered with no neighbours. Otherwise query
/// `i` owns slots `i*k` up to `(i+1)*k`; answers stop at the last query or at
/// the first window that starts past the end of the engine's buffers.
pub fn assemble<S: Copy>(batch: &QueryBatch<S>, found: &SearchResult<S>) -> (r: Response<S>)
    ensures
        r@ == expected_results(batch.rows(), batch.k as nat, found.distances@, found.labels@),
{
    let k = batch.k;
    let n = batch.vectors.len();
    let d = &found.distances;
    let l = &found.labels;
    let m = if d.len() <= l.len() {
        d.len()
    } else {
        l.len()
    };
    let ghost rows = batch.rows();
    let ghost expected = expected_results(rows, k as nat, d@, l@);
    let mut results: Vec<SingleResult<S>> = Vec::new();
    let mut i: usize = 0;
    let mut start: usize = 0;
    let mut done = k > 0 && m == 0;
    while i < n && !done
        invariant
            n == batch.vectors.len(),
            m == min_nat(d@.len(), l@.len()),
            rows == batch.rows(),
            i <= n,
            k == 0 ==> start == 0 && !done,
            k > 0 ==> (done <==> i * k >= m),
            k > 0 && !done ==> start == i * k,
            k > 0 && i > 0 ==> (i - 1) * k < m,
            results.len() == i,
            forall|t: int|
                0 <= t < i ==> (#[trigger] results@[t])@ == (kept(window(d@, l@, k as nat, t as nat)), rows[t]),
        decreases n - i,
    {
        let hi = if m - start >= k {
            start + k
        } else {
            m
        };
        proof {
            assert(start == i * k) by (nonlinear_arith)
                requires
                    k == 0 ==> start == 0,
                    k > 0 ==> start == i * k,
            ;
            assert(window(d@, l@, k as nat, i as nat) == slots(d@, l@, start as nat, hi as nat));
        }
        let neighbors = neighbors_in(d, l, start, hi);
        let vector = copy_row(&batch.vectors[i]);
        results.push(SingleResult { neighbors, vector });
        proof {
            assert((i + 1) * k == i * k + k) by (nonlinear_arith);
        }
        if k > 0 {
            if m - start > k {
                start = start + k;
            } else {
                done = true;
            }
        }
        i += 1;
    }
    proof {
        if k > 0 {
            lemma_answered_count(i as nat, n as nat, k as nat, m as nat);
        }
        assert(expected.len() == i);
    }
    let r = Response { results };
    proof {
        assert(r@ =~= expected);
    }
    r
}

/// Finishes a batch request once the engine has answered: the response when
/// the search succeeded (`Some`), the search error when it failed (`None`).
pub fn respond<S: Copy>(batch: &QueryBatch<S>, found: Option<SearchResult<S>>) -> (r: Result<Response<S>, QueryError>)
    ensures
        found is None ==> r == Err::<Response<S>, QueryError>(QueryError::SearchFailed),
        found is Some ==> r is Ok && r->Ok_0@ == expected_results(
            batch.rows(),
            batch.k as nat,
            found->Some_0.distances@,
            found->Some_0.labels@,
        ),
{
    match found {
        Some(f) => Ok(assemble(batch, &f)),
        None => Err(QueryError::SearchFailed),
    }
}

} // verus!
