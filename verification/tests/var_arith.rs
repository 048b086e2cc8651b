use mltt_elaborate::var::{index_of_level, level_of_index, next_level};

#[test]
fn next_level_is_size() {
    assert_eq!(next_level(0), 0);
    assert_eq!(next_level(7), 7);
}

#[test]
fn index_level_round_trip() {
    // For all ℓ < n: index(ℓ) == n − ℓ − 1, and level(index(ℓ)) == ℓ.
    let n: usize = 5;
    for level in 0..n {
        let index = index_of_level(n, level);
        assert_eq!(index, n - level - 1);
        assert_eq!(level_of_index(n, index), level);
    }
    assert_eq!(index_of_level(1, 0), 0);
    assert_eq!(level_of_index(1, 0), 0);
}
