use faiss_gateway::{assemble, check_dimensions, flatten, prepare, respond};
use faiss_gateway::{Neighbor, QueryBatch, QueryError, Response, SearchResult};

fn batch(vectors: Vec<Vec<f32>>, k: usize) -> QueryBatch<f32> {
    QueryBatch { vectors, k }
}

fn found(distances: Vec<f32>, labels: Vec<Option<u64>>) -> SearchResult<f32> {
    SearchResult { distances, labels }
}

#[test]
fn single_neighbour_when_engine_has_one() {
    let b = batch(vec![vec![1.0, 0.0, 0.0, 0.0]], 2);
    let flat = prepare(4, &b).unwrap();
    assert_eq!(flat, vec![1.0, 0.0, 0.0, 0.0]);
    let r = assemble(&b, &found(vec![0.0, 999.0], vec![Some(5), None]));
    assert_eq!(r.results.len(), 1);
    assert_eq!(r.results[0].neighbors, vec![Neighbor { id: 5, score: 0.0 }]);
    assert_eq!(r.results[0].vector, vec![1.0, 0.0, 0.0, 0.0]);
}

#[test]
fn short_vector_is_rejected() {
    let b = batch(vec![vec![1.0, 2.0, 3.0]], 1);
    let r = prepare(4, &b);
    assert_eq!(r, Err(QueryError::DimensionMismatch));
    assert_eq!(
        QueryError::DimensionMismatch.message(),
        "Provided vectors has different dimensions than the index"
    );
}

#[test]
fn search_failure_message() {
    assert_eq!(QueryError::SearchFailed.message(), "The search engine failed to answer the query");
}

#[test]
fn zero_dimensionality_is_rejected() {
    assert_eq!(check_dimensions(0, 0), Err(QueryError::DimensionMismatch));
    assert_eq!(check_dimensions(8, 0), Err(QueryError::DimensionMismatch));
}

#[test]
fn dimension_check_counts_vectors() {
    assert_eq!(check_dimensions(12, 4), Ok(3));
    assert_eq!(check_dimensions(0, 4), Ok(0));
    assert_eq!(check_dimensions(13, 4), Err(QueryError::DimensionMismatch));
    assert_eq!(check_dimensions(usize::MAX, 1), Ok(usize::MAX));
}

#[test]
fn flatten_keeps_order() {
    let v = vec![vec![1.0f32, 2.0], vec![], vec![3.0, 4.0, 5.0]];
    assert_eq!(flatten(&v), vec![1.0, 2.0, 3.0, 4.0, 5.0]);
    let empty: Vec<Vec<f32>> = vec![];
    assert_eq!(flatten(&empty), Vec::<f32>::new());
}

#[test]
fn ragged_batch_with_whole_total_passes() {
    let b = batch(vec![vec![1.0, 2.0], vec![3.0, 4.0, 5.0, 6.0, 7.0, 8.0]], 1);
    assert_eq!(prepare(4, &b), Ok(vec![1.0, 2.0, 3.0, 4.0, 5.0, 6.0, 7.0, 8.0]));
}

#[test]
fn results_follow_query_order() {
    let b = batch(vec![vec![1.0, 0.0], vec![0.0, 1.0], vec![1.0, 1.0]], 2);
    let f = found(
        vec![0.5, 1.5, 0.25, 0.75, 0.0, 2.0],
        vec![Some(10), Some(11), Some(20), Some(21), Some(30), Some(31)],
    );
    let r = assemble(&b, &f);
    assert_eq!(r.results.len(), 3);
    assert_eq!(r.results[0].vector, vec![1.0, 0.0]);
    assert_eq!(r.results[1].vector, vec![0.0, 1.0]);
    assert_eq!(r.results[2].vector, vec![1.0, 1.0]);
    assert_eq!(
        r.results[1].neighbors,
        vec![Neighbor { id: 20, score: 0.25 }, Neighbor { id: 21, score: 0.75 }]
    );
    assert_eq!(
        r.results[2].neighbors,
        vec![Neighbor { id: 30, score: 0.0 }, Neighbor { id: 31, score: 2.0 }]
    );
}

#[test]
fn empty_slots_dropped_in_each_window() {
    let b = batch(vec![vec![1.0], vec![2.0]], 3);
    let f = found(
        vec![0.1, 0.2, 0.3, 0.4, 0.5, 0.6],
        vec![Some(1), None, Some(3), None, None, None],
    );
    let r = assemble(&b, &f);
    assert_eq!(
        r.results[0].neighbors,
        vec![Neighbor { id: 1, score: 0.1 }, Neighbor { id: 3, score: 0.3 }]
    );
    assert!(r.results[1].neighbors.is_empty());
    assert_eq!(r.results[1].vector, vec![2.0]);
}

#[test]
fn engine_ranking_is_not_resorted() {
    let b = batch(vec![vec![0.0]], 3);
    let f = found(vec![9.0, 1.0, 5.0], vec![Some(7), Some(8), Some(9)]);
    let r = assemble(&b, &f);
    let ids: Vec<u64> = r.results[0].neighbors.iter().map(|n| n.id).collect();
    assert_eq!(ids, vec![7, 8, 9]);
}

#[test]
fn zero_k_gives_empty_neighbour_lists() {
    let b = batch(vec![vec![1.0, 2.0], vec![3.0, 4.0]], 0);
    let r = assemble(&b, &found(vec![], vec![]));
    assert_eq!(r.results.len(), 2);
    assert!(r.results[0].neighbors.is_empty());
    assert!(r.results[1].neighbors.is_empty());
    assert_eq!(r.results[1].vector, vec![3.0, 4.0]);
}

#[test]
fn results_stop_where_engine_buffers_end() {
    let b = batch(vec![vec![1.0], vec![2.0], vec![3.0]], 2);
    let f = found(vec![0.1, 0.2, 0.3], vec![Some(1), Some(2), Some(3), Some(4)]);
    let r = assemble(&b, &f);
    assert_eq!(r.results.len(), 2);
    assert_eq!(r.results[1].neighbors, vec![Neighbor { id: 3, score: 0.3 }]);
}

#[test]
fn more_windows_than_vectors_answers_each_vector_once() {
    let b = batch(vec![vec![1.0, 2.0, 3.0, 4.0]], 1);
    let f = found(vec![0.5, 0.7], vec![Some(4), Some(6)]);
    let r = assemble(&b, &f);
    assert_eq!(r.results.len(), 1);
    assert_eq!(r.results[0].neighbors, vec![Neighbor { id: 4, score: 0.5 }]);
}

#[test]
fn empty_batch_gives_empty_response() {
    let b = batch(vec![], 4);
    assert_eq!(prepare(4, &b), Ok(vec![]));
    let r = assemble(&b, &found(vec![], vec![]));
    assert!(r.results.is_empty());
}

#[test]
fn failed_search_is_reported() {
    let b = batch(vec![vec![1.0]], 1);
    assert_eq!(respond(&b, None), Err(QueryError::SearchFailed));
}

#[test]
fn successful_search_is_assembled() {
    let b = batch(vec![vec![1.0]], 1);
    let r = respond(&b, Some(found(vec![0.5], vec![Some(2)]))).unwrap();
    assert_eq!(r.results[0].neighbors, vec![Neighbor { id: 2, score: 0.5 }]);
}

#[test]
fn repeated_requests_agree() {
    let b = batch(vec![vec![1.0, 2.0], vec![3.0, 4.0]], 2);
    let f = found(vec![0.1, 0.2, 0.3, 0.4], vec![Some(1), None, Some(3), Some(4)]);
    let first: Response<f32> = assemble(&b, &f);
    let second = assemble(&b, &f);
    assert_eq!(first, second);
    assert_eq!(prepare(2, &b), prepare(2, &b));
}
