//! Identities: a keypair, and signing with its secret key.

use crate::error::ChainError;
use crate::scheme::PQC;
use vstd::prelude::*;

verus! {

/// A keypair of the signature scheme. The secret key never leaves the wallet
/// except as an argument to the signing function.
#[derive(Clone)]
pub struct Wallet {
    /// The public key.
    pub public_key: Vec<u8>,
    secret_key: Vec<u8>,
}

/// The keypair an outcome of [`Wallet::new`] holds.
pub open spec fn keys_of(outcome: Result<Wallet, ChainError>) -> Result<
    (Vec<u8>, Vec<u8>),
    ChainError,
> {
    match outcome {
        Ok(wallet) => Ok((wallet.public(), wallet.secret())),
        Err(e) => Err(e),
    }
}

impl Wallet {
    /// The public key.
    pub closed spec fn public(&self) -> Vec<u8> {
        self.public_key
    }

    /// The secret key.
    pub closed spec fn secret(&self) -> Vec<u8> {
        self.secret_key
    }

    /// A wallet that holds a fresh keypair of the scheme. A failure of the
    /// key generation is handed on.
    pub fn new<K, S, V>(pqc: &PQC<K, S, V>) -> (r: Result<Wallet, ChainError>) where
        K: Fn() -> Result<(Vec<u8>, Vec<u8>), ChainError>,
        S: Fn(&[u8], &[u8]) -> Result<Vec<u8>, ChainError>,
        V: Fn(&[u8], &[u8], &[u8]) -> bool,

        ensures
            pqc.generates(keys_of(r)),
    {
        match pqc.keypair() {
            Ok((public_key, secret_key)) => Ok(Wallet { public_key, secret_key }),
            Err(e) => Err(e),
        }
    }

    /// A signature over `data` under the wallet's secret key, or the
    /// scheme's failure to sign.
    pub fn sign<K, S, V>(&self, pqc: &PQC<K, S, V>, data: &[u8]) -> (r: Result<
        Vec<u8>,
        ChainError,
    >) where
        K: Fn() -> Result<(Vec<u8>, Vec<u8>), ChainError>,
        S: Fn(&[u8], &[u8]) -> Result<Vec<u8>, ChainError>,
        V: Fn(&[u8], &[u8], &[u8]) -> bool,

        ensures
            pqc.signs(data@, self.secret()@, r),
    {
        pqc.sign(data, self.secret_key.as_slice())
    }
}

} // verus!
