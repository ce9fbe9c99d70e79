//! The signature scheme, as the library sees it: three functions supplied by
//! the caller, held in one handle that is passed to whatever signs or
//! verifies.

use crate::error::ChainError;
use vstd::prelude::*;

verus! {

/// A handle on a signature scheme: how a keypair is generated, how a message
/// is signed, and how a signature is verified.
///
/// The three functions accept every input; a handle cannot be made of
/// functions that do not.
pub struct PQC<K, S, V> where
    K: Fn() -> Result<(Vec<u8>, Vec<u8>), ChainError>,
    S: Fn(&[u8], &[u8]) -> Result<Vec<u8>, ChainError>,
    V: Fn(&[u8], &[u8], &[u8]) -> bool,
 {
    keygen: K,
    signer: S,
    validator: V,
}

impl<K, S, V> PQC<K, S, V> where
    K: Fn() -> Result<(Vec<u8>, Vec<u8>), ChainError>,
    S: Fn(&[u8], &[u8]) -> Result<Vec<u8>, ChainError>,
    V: Fn(&[u8], &[u8], &[u8]) -> bool,
 {
    /// Each of the three functions may be called on every input.
    #[verifier::type_invariant]
    spec fn accepts_every_input(self) -> bool {
        &&& call_requires(self.keygen, ())
        &&& forall|data: &[u8], sk: &[u8]| call_requires(self.signer, (data, sk))
        &&& forall|data: &[u8], sig: &[u8], pk: &[u8]| call_requires(self.validator, (data, sig, pk))
    }

    /// The key generation function.
    pub closed spec fn keygen(&self) -> K {
        self.keygen
    }

    /// The signing function.
    pub closed spec fn signer(&self) -> S {
        self.signer
    }

    /// The verification function.
    pub closed spec fn validator(&self) -> V {
        self.validator
    }

    /// Generating a keypair may give `outcome`.
    pub open spec fn generates(&self, outcome: Result<(Vec<u8>, Vec<u8>), ChainError>) -> bool {
        call_ensures(self.keygen(), (), outcome)
    }

    /// Signing `data` with the secret key `sk` may give `outcome`.
    pub open spec fn signs(
        &self,
        data: Seq<u8>,
        sk: Seq<u8>,
        outcome: Result<Vec<u8>, ChainError>,
    ) -> bool {
        exists|d: &[u8], k: &[u8]|
            d@ == data && k@ == sk && #[trigger] call_ensures(self.signer(), (d, k), outcome)
    }

    /// Asked whether `sig` is a signature over `data` under the public key
    /// `pk`, the scheme may answer `verdict`.
    pub open spec fn answers(&self, data: Seq<u8>, sig: Seq<u8>, pk: Seq<u8>, verdict: bool) -> bool {
        exists|d: &[u8], s: &[u8], k: &[u8]|
            d@ == data && s@ == sig && k@ == pk && #[trigger] call_ensures(
                self.validator(),
                (d, s, k),
                verdict,
            )
    }

    /// A handle on the scheme that generates keypairs with `keypair` (public
    /// key first), signs with `sign` (message, then secret key) and verifies
    /// with `verify` (message, signature, public key).
    pub fn new(keypair: K, sign: S, verify: V) -> (pqc: Self)
        requires
            call_requires(keypair, ()),
            forall|data: &[u8], sk: &[u8]| call_requires(sign, (data, sk)),
            forall|data: &[u8], sig: &[u8], pk: &[u8]| call_requires(verify, (data, sig, pk)),
        ensures
            pqc.keygen() == keypair,
            pqc.signer() == sign,
            pqc.validator() == verify,
    {
        PQC { keygen: keypair, signer: sign, validator: verify }
    }

    /// A fresh keypair: the public key, then the secret key.
    pub fn keypair(&self) -> (r: Result<(Vec<u8>, Vec<u8>), ChainError>)
        ensures
            self.generates(r),
    {
        proof {
            use_type_invariant(self);
        }
        (self.keygen)()
    }

    /// A signature over `data` under the secret key `sk`.
    pub fn sign(&self, data: &[u8], sk: &[u8]) -> (r: Result<Vec<u8>, ChainError>)
        ensures
            self.signs(data@, sk@, r),
    {
        proof {
            use_type_invariant(self);
        }
        let r = (self.signer)(data, sk);
        assert(call_ensures(self.signer(), (data, sk), r));
        r
    }

    /// Whether `sig` is a signature over `data` under the public key `pk`.
    pub fn verify(&self, data: &[u8], sig: &[u8], pk: &[u8]) -> (ok: bool)
        ensures
            self.answers(data@, sig@, pk@, ok),
    {
        proof {
            use_type_invariant(self);
        }
        let ok = (self.validator)(data, sig, pk);
        assert(call_ensures(self.validator(), (data, sig, pk), ok));
        ok
    }
}

} // verus!
