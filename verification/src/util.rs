//! Modular exponentiation over fixed-width integers.

use vstd::prelude::*;

verus! {

use vstd::arithmetic::power::{pow, lemma_pow_adds, lemma_pow0, lemma_pow1};
use vstd::arithmetic::power2::{pow2, lemma_pow2_adds, lemma_pow2_pos, lemma2_to64};
use vstd::arithmetic::div_mod::{
    lemma_mul_mod_noop_general,
    lemma_div_denominator,
    lemma_basic_div,
    lemma_div_basics_2,
};
use vstd::bits::{lemma_u32_shr_is_div, lemma_u32_low_bits_mask_is_mod, lemma_low_bits_mask_values};

/// `base^exponent mod modulus` over mathematical integers: the reference
/// semantics of every cryptographic operation in this crate.
pub open spec fn pow_mod(base: int, exponent: nat, modulus: int) -> int
    recommends
        modulus >= 1,
{
    pow(base, exponent) % modulus
}

/// Square-and-multiply modular exponentiation: scans the exponent's bits
/// from most significant to least significant; at each step squares the
/// accumulator and, when the bit is set, multiplies by the base, reducing
/// modulo `N` after every multiplication.  The accumulator is a `u64` so
/// that the intermediate products of values below `2^32` cannot wrap.
///
/// A modulus of 0 names no ring, so it is excluded; `N == 1` is the
/// degenerate ring whose only element is 0.
pub fn modpow(x: u32, e: u32, N: u32) -> (r: u32)
    requires
        N >= 1,
    ensures
        r == pow_mod(x as int, e as nat, N as int),
        r < N,
        e == 0 ==> r == 1int % (N as int),
{
    let nn: u64 = N as u64;
    let mut r: u64 = 1 % nn;
    let mut i: u32 = 32;

    proof {
        lemma2_to64();
        lemma_basic_div(e as int, pow2(32) as int);
        lemma_pow0(x as int);
        assert(e as nat / pow2(32) == 0);
    }

    while i > 0
        invariant
            i <= 32,
            nn == N as u64,
            N >= 1,
            r < nn,
            r == pow(x as int, e as nat / pow2(i as nat)) % (N as int),
        decreases i,
    {
        i = i - 1;
        let bi = (e >> i) & 1;

        let ghost b = x as int;
        let ghost n = N as int;
        let ghost h = e as nat / pow2((i + 1) as nat);
        let ghost q = e as nat / pow2(i as nat);

        proof {
            lemma2_to64();
            lemma_low_bits_mask_values();
            lemma_pow2_pos(i as nat);
            lemma_u32_shr_is_div(e, i);
            lemma_u32_low_bits_mask_is_mod(e >> i, 1);
            lemma_pow2_adds(i as nat, 1);
            lemma_div_denominator(e as int, pow2(i as nat) as int, 2);
            assert(bi == q % 2);
            assert(h == q / 2);
            assert(q == 2 * h + bi);
            lemma_pow_adds(b, h, h);
            lemma_mul_mod_noop_general(pow(b, h), pow(b, h), n);
            assert(r * r <= 0xffff_fffe * 0xffff_fffe) by (nonlinear_arith)
                requires
                    r <= 0xffff_fffe,
            ;
        }

        r = r * r % nn;

        proof {
            assert(r == pow(b, h + h) % n);
        }

        if bi == 1 {
            proof {
                lemma_pow1(b);
                lemma_pow_adds(b, h + h, 1);
                lemma_mul_mod_noop_general(pow(b, h + h), b, n);
                assert(r * (x as u64) <= 0xffff_fffe * 0xffff_ffff) by (nonlinear_arith)
                    requires
                        r <= 0xffff_fffe,
                        x <= 0xffff_ffff,
                ;
            }
            r = r * (x as u64) % nn;
        }

        proof {
            assert(r == pow(b, q) % n);
        }
    }

    proof {
        lemma2_to64();
        lemma_div_basics_2(e as int);
        lemma_pow0(x as int);
        assert(e as nat / pow2(0) == e as nat);
    }

    r as u32
}

} // verus!
