//! Public-key encryption: the PKE and OSPK capability interfaces and a
//! textbook RSA instantiation of both, built on modular exponentiation.

use vstd::prelude::*;

verus! {

use vstd::arithmetic::power::{pow, lemma_pow_multiplies, lemma_pow_mod_noop};
use crate::util::{pow_mod, modpow};

/// A PKE scheme allows encrypting a message with a public key and
/// decrypting the ciphertext with the matching secret key.
///
/// `sk_wf` and `pk_wf` are the implementation's notion of a well-formed
/// key: `gen_key` only hands out well-formed keys, and the cryptographic
/// operations demand them.
pub trait PKE<M, C, SK, PK> {
    spec fn sk_wf(sk: SK) -> bool;

    spec fn pk_wf(pk: PK) -> bool;

    fn gen_key(&self) -> (keys: (SK, PK))
        ensures
            Self::sk_wf(keys.0),
            Self::pk_wf(keys.1);

    fn encrypt(pk: PK, m: M) -> (c: C)
        requires
            Self::pk_wf(pk);

    fn decrypt(sk: SK, c: C) -> (m: M)
        requires
            Self::sk_wf(sk);
}

/// Obliviously samplable public keys: a public key drawn without
/// knowledge of any matching secret key.  Sampled keys are well formed,
/// so encrypting under one cannot fail; that they are *indistinguishable*
/// from generated keys is a distribution property outside what a
/// contract on a single draw can state.
pub trait OSPK<PK> {
    spec fn sampled_wf(pk: PK) -> bool;

    fn sample_pubkey(&self) -> (pk: PK)
        ensures
            Self::sampled_wf(pk);
}

/// The textbook RSA scheme.  `prime_bits` is the intended prime size of
/// a real key-generation procedure; the placeholder `gen_key` below
/// ignores it and returns fixed parameters.
#[derive(Clone, Copy, Debug)]
pub struct TextbookRSA {
    pub prime_bits: u32,
}

/// An RSA secret key: the modulus and the private exponent.
#[derive(Clone, Copy, Debug)]
pub struct TextbookRSASecretKey {
    pub N: u32,
    pub d: u32,
}

/// An RSA public key: the modulus and the public exponent.
#[derive(Clone, Copy, Debug)]
pub struct TextbookRSAPublicKey {
    pub N: u32,
    pub e: u32,
}

/// First fixed prime of the placeholder key generation.
pub open spec fn rsa_p() -> int {
    63691
}

/// Second fixed prime of the placeholder key generation.
pub open spec fn rsa_q() -> int {
    65171
}

/// The fixed modulus `p * q`.
pub open spec fn rsa_modulus() -> int {
    rsa_p() * rsa_q()
}

/// The order of the unit group modulo the fixed modulus: `(p-1)*(q-1)`.
pub open spec fn rsa_phi() -> int {
    (rsa_p() - 1) * (rsa_q() - 1)
}

/// The fixed public exponent.
pub open spec fn rsa_e() -> int {
    13
}

/// The fixed private exponent.
pub open spec fn rsa_d() -> int {
    1277131477
}

/// Law: the fixed exponents are inverse to one another modulo the order
/// of the unit group, `e * d == 1 (mod phi(N))` — concretely,
/// `e * d == 4 * phi(N) + 1`.  This is the keypair invariant that makes
/// decryption undo encryption: `m^(e*d) == m * (m^phi)^4`, and by
/// Euler's theorem `m^phi == 1 (mod N)` for every unit `m` of the ring.
pub proof fn lemma_rsa_exponent_inverse()
    ensures
        rsa_e() * rsa_d() % rsa_phi() == 1,
        rsa_e() * rsa_d() == 4 * rsa_phi() + 1,
{
    assert(13int * 1277131477 % ((63691int - 1) * (65171int - 1)) == 1) by (nonlinear_arith);
    assert(13int * 1277131477 == 4 * ((63691int - 1) * (65171int - 1)) + 1) by (nonlinear_arith);
}

/// What `encrypt` returns: `m^e mod N` under the given public key.
pub open spec fn encrypt_spec(pk: TextbookRSAPublicKey, m: int) -> int {
    pow_mod(m, pk.e as nat, pk.N as int)
}

/// What `decrypt` returns: `c^d mod N` under the given secret key.
pub open spec fn decrypt_spec(sk: TextbookRSASecretKey, c: int) -> int {
    pow_mod(c, sk.d as nat, sk.N as int)
}

/// Law: decrypting an encryption raises the message to the power `e*d`
/// modulo the shared modulus.  Together with `lemma_rsa_exponent_inverse`
/// and Euler's theorem, this is why `decrypt(sk, encrypt(pk, m)) == m`
/// for every message in the ring; Euler's theorem itself is not
/// mechanized here.
pub proof fn lemma_decrypt_of_encrypt(
    sk: TextbookRSASecretKey,
    pk: TextbookRSAPublicKey,
    m: int,
)
    requires
        sk.N == pk.N,
        sk.N >= 1,
    ensures
        decrypt_spec(sk, encrypt_spec(pk, m)) == pow(m, (pk.e * sk.d) as nat) % (sk.N as int),
{
    let n = sk.N as int;
    let e = pk.e as nat;
    let d = sk.d as nat;
    lemma_pow_mod_noop(pow(m, e), d, n);
    lemma_pow_multiplies(m, e, d);
    assert(e * d == (pk.e * sk.d) as nat);
}

/// Relies on `rand::random`: a value of the requested type drawn from
/// the thread-local generator.  Nothing is promised of the value.
pub assume_specification<T>[ rand::random::<T> ]() -> (r: T)
    where
        rand::distributions::Standard: rand::distributions::Distribution<T>,
;

impl TextbookRSA {
    pub fn new(prime_bits: u32) -> (s: TextbookRSA)
        ensures
            s.prime_bits == prime_bits,
    {
        TextbookRSA { prime_bits }
    }

    /// Placeholder key generation with fixed 16-bit primes.  A sound
    /// implementation would search for random primes of `prime_bits`
    /// bits and compute `d` from `e` with the extended Euclidean
    /// algorithm.
    pub fn gen_key(&self) -> (keys: (TextbookRSASecretKey, TextbookRSAPublicKey))
        ensures
            keys.0.N == rsa_modulus(),
            keys.0.d == rsa_d(),
            keys.1.N == rsa_modulus(),
            keys.1.e == rsa_e(),
    {
        let p: u32 = 63691;
        let q: u32 = 65171;
        let N: u32 = p * q;
        let e: u32 = 13;
        let d: u32 = 1277131477;

        (TextbookRSASecretKey { N, d }, TextbookRSAPublicKey { N, e })
    }

    /// Encryption: `m^e mod N`.  Deterministic, with no padding; total
    /// for every message once the key names a ring.
    pub fn encrypt(pk: TextbookRSAPublicKey, m: u32) -> (c: u32)
        requires
            pk.N >= 1,
        ensures
            c == encrypt_spec(pk, m as int),
            c < pk.N,
    {
        modpow(m, pk.e, pk.N)
    }

    /// Decryption: `c^d mod N`.
    pub fn decrypt(sk: TextbookRSASecretKey, c: u32) -> (m: u32)
        requires
            sk.N >= 1,
        ensures
            m == decrypt_spec(sk, c as int),
            m < sk.N,
    {
        modpow(c, sk.d, sk.N)
    }

    /// Placeholder oblivious sampling: modulus and exponent drawn
    /// independently from almost the full `u32` range (a draw of 0 for
    /// the modulus is replaced by 1, since 0 names no ring).  This does
    /// not match the distribution of `gen_key` outputs — real RSA moduli
    /// are products of two similarly sized primes — so the two
    /// populations are statistically separable; a sound sampler would
    /// close that gap.
    pub fn sample_pubkey(&self) -> (pk: TextbookRSAPublicKey)
        ensures
            1 <= pk.N < u32::MAX,
            pk.e < u32::MAX,
    {
        let n_raw = rand::random::<u32>() % u32::MAX;
        let n = if n_raw == 0 {
            1
        } else {
            n_raw
        };
        let e = rand::random::<u32>() % u32::MAX;
        TextbookRSAPublicKey { N: n, e }
    }
}

impl PKE<u32, u32, TextbookRSASecretKey, TextbookRSAPublicKey> for TextbookRSA {
    open spec fn sk_wf(sk: TextbookRSASecretKey) -> bool {
        sk.N >= 1
    }

    open spec fn pk_wf(pk: TextbookRSAPublicKey) -> bool {
        pk.N >= 1
    }

    fn gen_key(&self) -> (keys: (TextbookRSASecretKey, TextbookRSAPublicKey)) {
        TextbookRSA::gen_key(self)
    }

    fn encrypt(pk: TextbookRSAPublicKey, m: u32) -> (c: u32) {
        TextbookRSA::encrypt(pk, m)
    }

    fn decrypt(sk: TextbookRSASecretKey, c: u32) -> (m: u32) {
        TextbookRSA::decrypt(sk, c)
    }
}

impl OSPK<TextbookRSAPublicKey> for TextbookRSA {
    open spec fn sampled_wf(pk: TextbookRSAPublicKey) -> bool {
        1 <= pk.N < u32::MAX && pk.e < u32::MAX
    }

    fn sample_pubkey(&self) -> (pk: TextbookRSAPublicKey) {
        TextbookRSA::sample_pubkey(self)
    }
}

} // verus!
