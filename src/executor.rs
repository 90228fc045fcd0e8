use vstd::prelude::*;
use vstd::seq_lib::lemma_flatten_concat;
use crate::model::{dimensions_fit, flat_of};
use crate::types::{QueryBatch, QueryError};

verus! {

/// Concatenates the query vectors, in order, into one buffer.
pub fn flatten<S: Copy>(vectors: &Vec<Vec<S>>) -> (r: Vec<S>)
    ensures
        r@ == flat_of(vectors@.map_values(|v: Vec<S>| v@)),
{
    let ghost rows = vectors@.map_values(|v: Vec<S>| v@);
    let mut out: Vec<S> = Vec::new();
    let mut i: usize = 0;
    while i < vectors.len()
        invariant
            i <= vectors.len(),
            rows == vectors@.map_values(|v: Vec<S>| v@),
            out@ == rows.take(i as int).flatten(),
        decreases vectors.len() - i,
    {
        let v = &vectors[i];
        let ghost before = out@;
        let mut j: usize = 0;
        while j < v.len()
            invariant
                j <= v.len(),
                out@ == before + v@.take(j as int),
            decreases v.len() - j,
        {
            out.push(v[j]);
            proof {
                assert(v@.take(j + 1) =~= v@.take(j as int).push(v@[j as int]));
            }
            j += 1;
        }
        proof {
            assert(v@.take(j as int) =~= v@);
            assert(rows.take(i + 1) =~= rows.take(i as int) + seq![rows[i as int]]);
            lemma_flatten_concat(rows.take(i as int), seq![rows[i as int]]);
            seq![rows[i as int]].lemma_flatten_one_element();
        }
        i += 1;
    }
    proof {
        assert(rows.take(i as int) =~= rows);
    }
    out
}

/// Checks a batch of `flat_len` components against an index of
/// dimensionality `dimensionality`, giving the number of whole vectors.
pub fn check_dimensions(flat_len: usize, dimensionality: usize) -> (r: Result<usize, QueryError>)
    ensures
        dimensions_fit(flat_len as nat, dimensionality as nat) ==> r == Ok::<usize, QueryError>(
            (flat_len / dimensionality) as usize,
        ),
        !dimensions_fit(flat_len as nat, dimensionality as nat) ==> r == Err::<usize, QueryError>(
            QueryError::DimensionMismatch,
        ),
{
    if dimensionality == 0 || flat_len % dimensionality != 0 {
        Err(QueryError::DimensionMismatch)
    } else {
        Ok(flat_len / dimensionality)
    }
}

/// The buffer to hand to the search engine for `batch`, or the validation
/// error; on error no search is to be made.
///
/// Only the total number of components is checked against the
/// dimensionality, not the length of each vector: a ragged batch whose total
/// is a whole number of vectors is accepted, and the engine reads it as that
/// many vectors of the index's size.
pub fn prepare<S: Copy>(dimensionality: usize, batch: &QueryBatch<S>) -> (r: Result<Vec<S>, QueryError>)
    ensures
        dimensions_fit(flat_of(batch.rows()).len(), dimensionality as nat) <==> r is Ok,
        r is Ok ==> r->Ok_0@ == flat_of(batch.rows()),
        r is Err ==> r->Err_0 == QueryError::DimensionMismatch,
{
    let flat = flatten(&batch.vectors);
    match check_dimensions(flat.len(), dimensionality) {
        Ok(_) => Ok(flat),
        Err(e) => Err(e),
    }
}

} // verus!
