use bloom_filter::filter::{BloomFilter, FilterError, FixedVectorFilter};

fn seeded(size: usize) -> FixedVectorFilter {
    FixedVectorFilter::with_hasher(size, ahash::RandomState::with_seeds(11, 22, 33, 44)).unwrap()
}

fn key(i: usize) -> String {
    format!("key-{}", i)
}

#[test]
fn capacity_one_scenario() {
    let mut f = FixedVectorFilter::new(1).unwrap();
    assert!(!f.insert("a"));
    assert!(f.maybe_contains("a"));
    assert!(f.maybe_contains("b"));
}

#[test]
fn capacity_zero_is_rejected() {
    assert!(matches!(FixedVectorFilter::new(0), Err(FilterError::ZeroCapacity)));
    let r = FixedVectorFilter::with_hasher(0, ahash::RandomState::with_seeds(1, 2, 3, 4));
    assert!(matches!(r, Err(FilterError::ZeroCapacity)));
}

#[test]
fn new_filter_is_empty() {
    let f = FixedVectorFilter::new(64).unwrap();
    assert_eq!(f.capacity(), 64);
    for i in 0..500 {
        assert!(!f.maybe_contains(&key(i)));
    }
}

#[test]
fn insert_twice_on_fresh_filter() {
    let mut f = FixedVectorFilter::new(100).unwrap();
    assert!(!f.insert("apple"));
    assert!(f.maybe_contains("apple"));
    assert!(f.insert("apple"));
    assert!(f.maybe_contains("apple"));
}

#[test]
fn no_false_negatives() {
    let mut f = FixedVectorFilter::new(50).unwrap();
    for i in 0..200 {
        f.insert(&key(i));
    }
    for i in 0..200 {
        assert!(f.maybe_contains(&key(i)));
    }
}

#[test]
fn queries_are_deterministic() {
    let mut f = FixedVectorFilter::new(10).unwrap();
    f.insert("x");
    for i in 0..50 {
        let first = f.maybe_contains(&key(i));
        for _ in 0..5 {
            assert_eq!(f.maybe_contains(&key(i)), first);
        }
    }
}

#[test]
fn colliding_keys_share_their_answer() {
    let mut f = seeded(4);
    let target = f.hashed_index("k1");
    let mut other = None;
    for i in 0..1000 {
        let k = key(i);
        if k != "k1" && f.hashed_index(&k) == target {
            other = Some(k);
            break;
        }
    }
    let other = other.expect("some key shares the cell of k1 among four cells");
    assert!(!f.maybe_contains(&other));
    assert!(!f.insert("k1"));
    assert!(f.maybe_contains(&other));
}

#[test]
fn present_keys_never_shrink() {
    let mut f = FixedVectorFilter::new(30).unwrap();
    let probes: Vec<String> = (0..100).map(key).collect();
    let mut before: Vec<bool> = probes.iter().map(|k| f.maybe_contains(k)).collect();
    for i in 0..40 {
        f.insert(&format!("insert-{}", i));
        let after: Vec<bool> = probes.iter().map(|k| f.maybe_contains(k)).collect();
        for j in 0..probes.len() {
            assert!(!before[j] || after[j]);
        }
        before = after;
    }
}

#[test]
fn false_positives_are_rare_with_many_cells() {
    let mut f = FixedVectorFilter::new(1000).unwrap();
    f.insert("only");
    let hits = (0..1000).filter(|i| f.maybe_contains(&key(*i))).count();
    assert!(hits < 50, "{} false positives out of 1000", hits);
}

#[test]
fn index_is_below_capacity() {
    let f = FixedVectorFilter::new(7).unwrap();
    for i in 0..200 {
        assert!(f.hashed_index(&key(i)) < 7);
    }
}

#[test]
fn same_seeds_give_same_index() {
    let a = seeded(97);
    let b = seeded(97);
    for i in 0..100 {
        assert_eq!(a.hashed_index(&key(i)), b.hashed_index(&key(i)));
    }
}

#[test]
fn keys_spread_over_cells() {
    let f = seeded(16);
    let mut seen = vec![false; 16];
    for i in 0..400 {
        seen[f.hashed_index(&key(i))] = true;
    }
    assert!(seen.iter().filter(|s| **s).count() > 8);
}

#[test]
fn insert_sets_only_the_key_cell() {
    let mut f = seeded(1000);
    let idx = f.hashed_index("solo");
    f.insert("solo");
    for i in 0..300 {
        let k = key(i);
        assert_eq!(f.maybe_contains(&k), f.hashed_index(&k) == idx);
    }
}

#[test]
fn debug_output_names_the_filter() {
    let f = FixedVectorFilter::new(3).unwrap();
    let text = format!("{:?}", f);
    assert!(text.contains("FixedVectorFilter"));
    assert!(text.contains("[false, false, false]"));
}
