use oblivious_transfer::util::modpow;

#[test]
fn modpow_correctness() {
    let x = 27;
    let e = 13;
    let n = 16;
    assert_eq!(modpow(x, e, n), 11);
}

#[test]
fn modpow_small_exact_values() {
    assert_eq!(modpow(5, 3, 7), 6);
    assert_eq!(modpow(2, 10, 1000), 24);
    assert_eq!(modpow(10, 9, 1_000_000_007), 1_000_000_000);
    assert_eq!(modpow(3, 20, 1_000_003), 773_943);
}

#[test]
fn modpow_zero_exponent_is_one() {
    assert_eq!(modpow(27, 0, 16), 1);
    assert_eq!(modpow(0, 0, 9), 1);
    assert_eq!(modpow(u32::MAX, 0, u32::MAX), 1);
}

#[test]
fn modpow_degenerate_ring_is_zero() {
    assert_eq!(modpow(27, 13, 1), 0);
    assert_eq!(modpow(0, 0, 1), 0);
    assert_eq!(modpow(u32::MAX, u32::MAX, 1), 0);
}

#[test]
fn modpow_result_in_ring() {
    let cases: Vec<(u32, u32, u32)> = vec![
        (u32::MAX, u32::MAX, u32::MAX),
        (u32::MAX - 1, u32::MAX, u32::MAX - 1),
        (123_456_789, 987_654_321, 1000),
        (2, 31, 7),
    ];
    for (x, e, n) in cases {
        assert!(modpow(x, e, n) < n);
    }
}
