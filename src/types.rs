use vstd::prelude::*;

verus! {

/// One neighbour found for a query: the index's id for it and its distance.
#[derive(Clone, Copy, Debug, PartialEq)]
pub struct Neighbor<S> {
    pub id: u64,
    pub score: S,
}

/// The answer to one query vector: the neighbours found, nearest first, and
/// the query vector itself.
#[derive(Clone, Debug, PartialEq)]
pub struct SingleResult<S> {
    pub neighbors: Vec<Neighbor<S>>,
    pub vector: Vec<S>,
}

impl<S> View for SingleResult<S> {
    type V = (Seq<Neighbor<S>>, Seq<S>);

    open spec fn view(&self) -> (Seq<Neighbor<S>>, Seq<S>) {
        (self.neighbors@, self.vector@)
    }
}

/// The answer to a whole batch: one entry per answered query, in query order.
#[derive(Clone, Debug, PartialEq)]
pub struct Response<S> {
    pub results: Vec<SingleResult<S>>,
}

impl<S> View for Response<S> {
    type V = Seq<(Seq<Neighbor<S>>, Seq<S>)>;

    open spec fn view(&self) -> Seq<(Seq<Neighbor<S>>, Seq<S>)> {
        self.results@.map_values(|r: SingleResult<S>| r@)
    }
}

/// A batch request: the query vectors and how many neighbours to find for each.
#[derive(Clone, Debug)]
pub struct QueryBatch<S> {
    pub vectors: Vec<Vec<S>>,
    pub k: usize,
}

impl<S> QueryBatch<S> {
    /// The query vectors as sequences.
    pub open spec fn rows(&self) -> Seq<Seq<S>> {
        self.vectors@.map_values(|v: Vec<S>| v@)
    }
}

/// What the search engine hands back for a batch: `k` slots per query, laid
/// out query after query. A slot whose label is `None` holds no neighbour.
#[derive(Clone, Debug)]
pub struct SearchResult<S> {
    pub distances: Vec<S>,
    pub labels: Vec<Option<u64>>,
}

/// Why a batch request got no answer.
#[derive(Clone, Copy, Debug, PartialEq, Eq)]
pub enum QueryError {
    /// The total number of components is not a multiple of the index's
    /// dimensionality (or the index has none).
    DimensionMismatch,
    /// The search engine reported a failure.
    SearchFailed,
}

impl QueryError {
    /// The message sent to the client for this error.
    pub fn message(&self) -> (r: &'static str)
        ensures
            *self == QueryError::DimensionMismatch ==> r@
                == "Provided vectors has different dimensions than the index"@,
            *self == QueryError::SearchFailed ==> r@ == "The search engine failed to answer the query"@,
    {
        match self {
            QueryError::DimensionMismatch => {
                proof {
                    reveal_strlit("Provided vectors has different dimensions than the index");
                }
                "Provided vectors has different dimensions than the index"
            },
            QueryError::SearchFailed => {
                proof {
                    reveal_strlit("The search engine failed to answer the query");
                }
                "The search engine failed to answer the query"
            },
        }
    }
}

} // verus!
