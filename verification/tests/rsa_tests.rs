use oblivious_transfer::pke::TextbookRSA;

#[test]
fn textbook_rsa_correctness() {
    let (sk, pk) = TextbookRSA::new(0).gen_key();
    let m: u32 = 11;
    let c = TextbookRSA::encrypt(pk, m);
    let m_prime = TextbookRSA::decrypt(sk, c);
    assert_eq!(m_prime, m);
}

#[test]
fn rsa_roundtrip_across_the_ring() {
    let (sk, pk) = TextbookRSA::new(0).gen_key();
    // 0, 1, a generic message, the fixed primes, and the largest ring element.
    let messages: Vec<u32> = vec![0, 1, 2, 123_456_789, 63_691, 65_171, 4_150_806_160];
    for m in messages {
        assert!(m < pk.N);
        let c = TextbookRSA::encrypt(pk, m);
        assert!(c < pk.N);
        assert_eq!(TextbookRSA::decrypt(sk, c), m);
    }
}

#[test]
fn generated_keys_share_the_fixed_modulus() {
    let (sk, pk) = TextbookRSA::new(16).gen_key();
    assert_eq!(sk.N, 4_150_806_161);
    assert_eq!(pk.N, 4_150_806_161);
    assert_eq!(pk.e, 13);
    assert_eq!(sk.d, 1_277_131_477);
}

#[test]
fn sampled_keys_are_well_formed() {
    let scheme = TextbookRSA::new(0);
    for _ in 0..64 {
        let pk = scheme.sample_pubkey();
        assert!(pk.N >= 1);
        assert!(pk.N < u32::MAX);
        assert!(pk.e < u32::MAX);
    }
}

#[test]
fn sampler_output_differs_from_generated_keys() {
    // The placeholder sampler draws from almost the full u32 range while
    // every generated public key is (4150806161, 13): the two populations
    // are trivially separable, so this sampler does not meet the
    // indistinguishability goal a sound one would.  All 64 draws matching
    // the generated key has probability about 2^-4096.
    let scheme = TextbookRSA::new(0);
    let (_, real_pk) = scheme.gen_key();
    let mut matches: u32 = 0;
    for _ in 0..64 {
        let pk = scheme.sample_pubkey();
        if pk.N == real_pk.N && pk.e == real_pk.e {
            matches += 1;
        }
    }
    assert!(matches < 64);
}
