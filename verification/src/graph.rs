use vstd::prelude::*;

verus! {

/// One recorded edge: the two endpoints in the order they were given, and the
/// payload stored with them.
pub type Edge<T> = (usize, usize, T);

/// How much one recorded edge contributes to the degree of node `v`: one for
/// each endpoint slot that equals `v` (a self-loop contributes two).
pub open spec fn edge_degree<T>(e: Edge<T>, v: usize) -> nat {
    (if e.0 == v {
        1nat
    } else {
        0nat
    }) + (if e.1 == v {
        1nat
    } else {
        0nat
    })
}

/// Accumulated degree of node `v` over a history of recorded edges: every call
/// that mentioned `v` counts, whether or not it overwrote an earlier payload.
pub open spec fn degree_in<T>(edges: Seq<Edge<T>>, v: usize) -> nat
    decreases edges.len(),
{
    if edges.len() == 0 {
        0
    } else {
        degree_in(edges.drop_last(), v) + edge_degree(edges.last(), v)
    }
}

/// Whether a recorded edge connects the unordered node pair `{a, b}`.
pub open spec fn connects<T>(e: Edge<T>, a: usize, b: usize) -> bool {
    (e.0 == a && e.1 == b) || (e.0 == b && e.1 == a)
}

/// Payload stored for the unordered pair `{a, b}`: the payload of the most
/// recent recorded edge between them, or nothing if none was ever recorded.
pub open spec fn weight_in<T>(edges: Seq<Edge<T>>, a: usize, b: usize) -> Option<T>
    decreases edges.len(),
{
    if edges.len() == 0 {
        None
    } else if connects(edges.last(), a, b) {
        Some(edges.last().2)
    } else {
        weight_in(edges.drop_last(), a, b)
    }
}

/// Law: recording an edge stores its payload under both orientations — after
/// `add_edge(a, b, w)` the stored weight of `(a, b)` and of `(b, a)` is `w`,
/// whatever was stored before.
pub proof fn lemma_add_edge_weight<T>(edges: Seq<Edge<T>>, a: usize, b: usize, w: T)
    ensures
        weight_in(edges.push((a, b, w)), a, b) == Some(w),
        weight_in(edges.push((a, b, w)), b, a) == Some(w),
{
    assert(edges.push((a, b, w)).last() == (a, b, w));
}

/// Law: each recorded edge adds exactly its endpoint count to the degree of
/// every node — one per endpoint slot equal to that node — so a call
/// `add_edge(a, b, w)` with `a != b` raises `degree(a)` and `degree(b)` by one
/// each and leaves every other degree unchanged, and repeated calls keep
/// accumulating.
pub proof fn lemma_add_edge_degree<T>(edges: Seq<Edge<T>>, a: usize, b: usize, w: T, v: usize)
    ensures
        degree_in(edges.push((a, b, w)), v) == degree_in(edges, v) + edge_degree((a, b, w), v),
{
    assert(edges.push((a, b, w)).drop_last() =~= edges);
}

/// Law: the stored weight never depends on the order in which a pair is
/// queried.
pub proof fn lemma_weight_symmetric<T>(edges: Seq<Edge<T>>, a: usize, b: usize)
    ensures
        weight_in(edges, a, b) == weight_in(edges, b, a),
    decreases edges.len(),
{
    if edges.len() > 0 {
        lemma_weight_symmetric(edges.drop_last(), a, b);
    }
}

/// A weighted undirected adjacency store keyed by node identifiers.
///
/// The abstract state is the full history of `add_edge` calls, viewed as a
/// sequence of recorded edges; `degree` and `weight` are defined over that
/// history. Storage is symmetric: a payload added for `(a, b)` is found under
/// `(b, a)` as well, and a later call for the same unordered pair overwrites
/// it, while degrees keep accumulating one increment per endpoint per call.
pub struct Graph<T> {
    edges: Vec<Edge<T>>,
}

impl<T> View for Graph<T> {
    type V = Seq<Edge<T>>;

    closed spec fn view(&self) -> Seq<Edge<T>> {
        self.edges@
    }
}

impl<T> Graph<T> {
    /// Machine-limit bound on the recorded history: with at most two degree
    /// increments per recorded edge, every degree count fits in a `usize`.
    /// `new` establishes it and `add_edge` preserves it.
    pub open spec fn wf(self) -> bool {
        self@.len() <= usize::MAX / 2
    }

    /// An empty graph: no recorded edges, so every degree is zero and every
    /// pair is unconnected.
    pub fn new() -> (g: Self)
        ensures
            g@ == Seq::<Edge<T>>::empty(),
    {
        Graph { edges: Vec::new() }
    }

    /// Record an edge between `a` and `b` carrying `weight`. Each call
    /// increments the degree of both endpoints and overwrites any payload
    /// previously stored for the unordered pair.
    pub fn add_edge(&mut self, a: usize, b: usize, weight: T) where T: Clone
        requires
            old(self)@.len() < usize::MAX / 2,
        ensures
            final(self)@ == old(self)@.push((a, b, weight)),
            final(self).wf(),
    {
        self.edges.push((a, b, weight));
    }

    /// Accumulated increment count for `v`: zero if no recorded edge ever
    /// mentioned it.
    pub fn degree(&self, v: usize) -> (d: usize)
        requires
            self.wf(),
        ensures
            d == degree_in(self@, v),
    {
        let n = self.edges.len();
        let mut d: usize = 0;
        let mut i: usize = 0;
        while i < n
            invariant
                n == self.edges@.len(),
                n <= usize::MAX / 2,
                i <= n,
                d == degree_in(self.edges@.take(i as int), v),
                d <= 2 * i,
            decreases n - i,
        {
            proof {
                assert(self.edges@.take(i as int + 1).drop_last() =~= self.edges@.take(i as int));
                assert(self.edges@.take(i as int + 1).last() == self.edges@[i as int]);
            }
            if self.edges[i].0 == v {
                d = d + 1;
            }
            if self.edges[i].1 == v {
                d = d + 1;
            }
            i = i + 1;
        }
        proof {
            assert(self.edges@.take(n as int) =~= self.edges@);
        }
        d
    }

    /// The payload stored for the unordered pair `{a, b}`, or `None` if no
    /// edge was ever added between them.
    pub fn weight(&self, a: usize, b: usize) -> (w: Option<&T>)
        ensures
            w.is_some() == weight_in(self@, a, b).is_some(),
            w matches Some(p) ==> weight_in(self@, a, b) == Some(*p),
    {
        let n = self.edges.len();
        let mut i: usize = n;
        proof {
            assert(self.edges@.take(n as int) =~= self.edges@);
        }
        while i > 0
            invariant
                n == self.edges@.len(),
                i <= n,
                weight_in(self.edges@, a, b) == weight_in(self.edges@.take(i as int), a, b),
            decreases i,
        {
            i = i - 1;
            proof {
                assert(self.edges@.take(i as int + 1).drop_last() =~= self.edges@.take(i as int));
                assert(self.edges@.take(i as int + 1).last() == self.edges@[i as int]);
            }
            let e = &self.edges[i];
            if (e.0 == a && e.1 == b) || (e.0 == b && e.1 == a) {
                return Some(&e.2);
            }
        }
        None
    }
}

} // verus!
