use vstd::arithmetic::div_mod::{
    lemma_div_is_ordered, lemma_div_is_strictly_smaller, lemma_div_multiples_vanish,
    lemma_fundamental_div_mod,
};
use vstd::prelude::*;

verus! {

/// Mathematical primality: at least two, with no divisor strictly between
/// one and the number itself.
pub open spec fn is_prime_spec(n: int) -> bool {
    n >= 2 && forall|d: int| 2 <= d < n ==> #[trigger] (n % d) != 0
}

/// No integer below two is prime.
pub proof fn lemma_below_two_not_prime(n: int)
    requires
        n < 2,
    ensures
        !is_prime_spec(n),
{
}

/// Every proper divisor of `n` lies at or below `n / 2`, so a scan that
/// rules out the divisors from `n / 2` down to `2` rules out them all.
pub proof fn lemma_divisor_at_most_half(n: int, d: int)
    requires
        2 <= d < n,
        n % d == 0,
    ensures
        d <= n / 2,
{
    lemma_fundamental_div_mod(n, d);
    let k = n / d;
    assert(n == d * k);
    assert(k >= 2) by (nonlinear_arith)
        requires
            n == d * k,
            2 <= d,
            d < n,
    ;
    assert(2 * d <= n) by (nonlinear_arith)
        requires
            n == d * k,
            k >= 2,
            d >= 2,
    ;
    lemma_div_is_ordered(2 * d, n, 2);
    lemma_div_multiples_vanish(d, 2);
}

/// A scan over the divisors from `n / 2` down to `2` decides primality:
/// bounding the scan by `n / 2` instead of `n - 1` never changes the verdict.
pub proof fn lemma_prime_from_half_scan(n: int)
    requires
        n >= 2,
        forall|d: int| 2 <= d <= n / 2 ==> #[trigger] (n % d) != 0,
    ensures
        is_prime_spec(n),
{
    assert forall|d: int| 2 <= d < n implies #[trigger] (n % d) != 0 by {
        if n % d == 0 {
            lemma_divisor_at_most_half(n, d);
        }
    }
}

/// Trial division over every candidate divisor from `candidate / 2` down
/// to `2`, returning whether `candidate` is prime.
pub fn is_prime(candidate: usize) -> (r: bool)
    ensures
        r == is_prime_spec(candidate as int),
{
    if candidate < 2 {
        return false;
    }
    let mut divisor: usize = candidate / 2;
    proof {
        lemma_div_is_ordered(2, candidate as int, 2);
    }
    loop
        invariant
            2 <= candidate,
            1 <= divisor,
            divisor <= candidate as int / 2,
            forall|d: int|
                divisor < d <= candidate as int / 2 ==> #[trigger] ((candidate as int) % d) != 0,
        decreases divisor,
    {
        if divisor == 1 {
            proof {
                lemma_prime_from_half_scan(candidate as int);
            }
            return true;
        }
        if candidate % divisor == 0 {
            proof {
                assert((candidate as int) % (divisor as int) == 0);
                assert(divisor < candidate) by {
                    lemma_div_is_strictly_smaller(candidate as int, 2);
                }
                assert(!is_prime_spec(candidate as int));
            }
            return false;
        } else {
            divisor = divisor - 1;
        }
    }
}

} // verus!
