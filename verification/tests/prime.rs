use prime_echo::primes::is_prime;

#[test]
fn test_is_prime() {
    assert_eq!(is_prime(0), false);
    assert_eq!(is_prime(1), false);
    assert_eq!(is_prime(2), true);
    assert_eq!(is_prime(3), true);
    assert_eq!(is_prime(4), false);
    assert_eq!(is_prime(5), true);
    assert_eq!(is_prime(6), false);
    assert_eq!(is_prime(7), true);
    assert_eq!(is_prime(8), false);
    assert_eq!(is_prime(9), false);
    assert_eq!(is_prime(10), false);
    assert_eq!(is_prime(1024), false);
    assert_eq!(is_prime(1033), true);
}

#[test]
fn cross_check_against_square_root_scan() {
    for n in 0usize..10000 {
        let mut expected = n >= 2;
        let mut d = 2usize;
        while d * d <= n {
            if n % d == 0 {
                expected = false;
                break;
            }
            d += 1;
        }
        assert_eq!(is_prime(n), expected);
    }
}
