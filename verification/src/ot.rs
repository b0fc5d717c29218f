//! 1-of-n oblivious transfer: a receiver obtains one out of n messages
//! held by a sender, at an index of the receiver's choosing, without the
//! receiver revealing the choice and without the sender revealing any
//! other message.

use vstd::prelude::*;

verus! {

use vstd::arithmetic::power::pow;
use crate::pke::{
    TextbookRSA,
    TextbookRSASecretKey,
    TextbookRSAPublicKey,
    encrypt_spec,
    decrypt_spec,
    lemma_decrypt_of_encrypt,
    rsa_modulus,
    rsa_e,
    rsa_d,
};

/// The protocol's failure taxonomy: the receiver's choice index must
/// lie within the sender's message list.
#[derive(Clone, Copy, Debug, PartialEq, Eq)]
pub enum OTError {
    InvalidIndex,
}

/// A 1-of-n oblivious transfer over messages of type `M`.  `eval` runs
/// both roles synchronously: the first component of the output pair is
/// the sender's (empty) output, the second the receiver's recovered
/// message.
pub trait ObliviousTransfer<M> {
    fn eval(x1: Vec<M>, x2: usize) -> (r: Result<((), M), OTError>);
}

pub struct PKEObliviousTransfer {}

/// The secret key of the one real keypair of a protocol run.
pub open spec fn ot_secret_key() -> TextbookRSASecretKey {
    TextbookRSASecretKey { N: rsa_modulus() as u32, d: rsa_d() as u32 }
}

/// The public key of the one real keypair of a protocol run.
pub open spec fn ot_public_key() -> TextbookRSAPublicKey {
    TextbookRSAPublicKey { N: rsa_modulus() as u32, e: rsa_e() as u32 }
}

/// The receiver's output for a chosen message `m`: one encrypt/decrypt
/// round trip under the real keypair of the run.
pub open spec fn ot_transfer_spec(m: int) -> int {
    decrypt_spec(ot_secret_key(), encrypt_spec(ot_public_key(), m))
}

/// Law: for a valid choice index the receiver's output is the chosen
/// message raised to the power `e*d` modulo `N`; no other list position
/// enters it.  Together with `lemma_rsa_exponent_inverse` and Euler's
/// theorem (the latter not mechanized here), that power map is the
/// identity on the ring, so the receiver recovers exactly the chosen
/// message.
pub proof fn lemma_transfer_is_power(m: int)
    ensures
        ot_transfer_spec(m) == pow(m, (rsa_e() * rsa_d()) as nat) % rsa_modulus(),
{
    lemma_decrypt_of_encrypt(ot_secret_key(), ot_public_key(), m);
}

impl PKEObliviousTransfer {
    /// One synchronous protocol run over the message list `x1` with
    /// choice index `x2`: succeeds exactly when the index is in range,
    /// and then hands the receiver the chosen message's encrypt/decrypt
    /// round trip under the run's one real keypair.
    pub fn eval(x1: Vec<u32>, x2: usize) -> (r: Result<((), u32), OTError>)
        ensures
            r is Ok <==> x2 < x1@.len(),
            x2 < x1@.len() ==> (r matches Ok(out) && out.0 == () && out.1 == ot_transfer_spec(
                x1@[x2 as int] as int,
            ) && out.1 < rsa_modulus()),
            x2 >= x1@.len() ==> (r matches Err(err) && err == OTError::InvalidIndex),
    {
        if x2 >= x1.len() {
            return Err(OTError::InvalidIndex);
        }

        // Key setup (receiver): one real keypair; a public-key list with
        // the real public key at the chosen index and an obliviously
        // sampled key at every other position.
        let scheme = TextbookRSA::new(0);
        let key = scheme.gen_key();
        let n = x1.len();
        let mut pubkeys: Vec<TextbookRSAPublicKey> = Vec::new();
        let mut i: usize = 0;
        while i < n
            invariant
                i <= n,
                n == x1@.len(),
                x2 < n,
                pubkeys@.len() == i as int,
                key.1.N == rsa_modulus(),
                key.1.e == rsa_e(),
                forall|j: int| 0 <= j < i ==> pubkeys@[j].N >= 1,
                x2 < i ==> pubkeys@[x2 as int] == key.1,
            decreases n - i,
        {
            if i == x2 {
                pubkeys.push(key.1);
            } else {
                pubkeys.push(scheme.sample_pubkey());
            }
            i = i + 1;
        }

        // Encryption (sender): encrypt every message under the public
        // key at its own position.  The sender cannot tell the real key
        // from the sampled ones.
        let mut ciphers: Vec<u32> = Vec::new();
        let mut i: usize = 0;
        while i < n
            invariant
                i <= n,
                n == x1@.len(),
                x2 < n,
                pubkeys@.len() == n as int,
                ciphers@.len() == i as int,
                key.1.N == rsa_modulus(),
                key.1.e == rsa_e(),
                forall|j: int| 0 <= j < n ==> pubkeys@[j].N >= 1,
                pubkeys@[x2 as int] == key.1,
                x2 < i ==> ciphers@[x2 as int] == encrypt_spec(
                    key.1,
                    x1@[x2 as int] as int,
                ),
            decreases n - i,
        {
            let c = TextbookRSA::encrypt(pubkeys[i], x1[i]);
            ciphers.push(c);
            i = i + 1;
        }

        // Decryption (receiver): only the chosen position is decrypted;
        // for every other position no matching secret key exists.
        let x = TextbookRSA::decrypt(key.0, ciphers[x2]);

        proof {
            assert(key.0 == ot_secret_key());
            assert(key.1 == ot_public_key());
        }

        Ok(((), x))
    }
}

impl ObliviousTransfer<u32> for PKEObliviousTransfer {
    fn eval(x1: Vec<u32>, x2: usize) -> (r: Result<((), u32), OTError>) {
        PKEObliviousTransfer::eval(x1, x2)
    }
}

} // verus!
