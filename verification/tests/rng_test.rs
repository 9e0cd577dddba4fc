use sim::rng::Rng;

#[test]
fn rng_produces_the_documented_sequence() {
    let mut r = Rng::new();
    assert_eq!(r.next_u64(), 0x0D83B3E29A21487Au64);
    assert_eq!(r.next_u64(), 0x198795FE79A4D2A8u64);
    assert_eq!(r.next_u64(), 0xF97F3A1285C85815u64);
}

#[test]
fn rng_default_matches_new() {
    let mut a = Rng::new();
    let mut b = Rng::default();
    assert_eq!(a, b);
    assert_eq!(a.next_u64(), b.next_u64());
}

#[test]
fn add_sums() {
    assert_eq!(sim::add(2, 2), 4);
}
