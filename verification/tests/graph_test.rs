use sim::graph::Graph;

#[test]
fn can_add_edge_and_query_degree() {
    let mut g = Graph::new();
    g.add_edge(1usize, 2usize, 1usize);
    assert_eq!(g.degree(1usize), 1);
}

#[test]
fn degree_accumulates_per_call_and_weight_is_overwritten() {
    let mut g: Graph<u64> = Graph::new();
    g.add_edge(1usize, 2usize, 7u64);
    g.add_edge(1usize, 2usize, 9u64);
    assert_eq!(g.degree(1usize), 2);
    assert_eq!(g.degree(2usize), 2);
    assert_eq!(g.weight(1usize, 2usize), Some(&9u64));
    assert_eq!(g.weight(2usize, 1usize), Some(&9u64));
}

#[test]
fn untouched_nodes_have_degree_zero_and_no_weight() {
    let mut g: Graph<u64> = Graph::new();
    assert_eq!(g.degree(5usize), 0);
    assert_eq!(g.weight(1usize, 2usize), None);
    g.add_edge(1usize, 2usize, 7u64);
    assert_eq!(g.degree(5usize), 0);
    assert_eq!(g.weight(1usize, 3usize), None);
}
