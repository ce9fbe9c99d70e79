//! Signed records.

use crate::digest::{sha256, sha256_digest};
use crate::error::ChainError;
use crate::scheme::PQC;
use vstd::prelude::*;
use vstd::slice::slice_to_vec;

verus! {

/// A signed record: who sent it, what it says, and the sender's signature
/// over its content hash.
#[derive(Debug, Clone)]
pub struct Transaction {
    /// The sender's public key.
    pub from: Vec<u8>,
    /// The payload.
    pub data: String,
    /// The signature over the content hash.
    pub signature: Vec<u8>,
}

/// The mathematical value of a [`Transaction`].
pub ghost struct TransactionView {
    pub from: Seq<u8>,
    pub data: Seq<char>,
    pub signature: Seq<u8>,
}

impl View for Transaction {
    type V = TransactionView;

    open spec fn view(&self) -> TransactionView {
        TransactionView { from: self.from@, data: self.data@, signature: self.signature@ }
    }
}

/// Asked whether `tx` is signed by its sender, the scheme may answer
/// `verdict`: it is handed the content hash, the signature and the sender's
/// key.
pub open spec fn signature_verdict<K, S, V>(
    pqc: PQC<K, S, V>,
    tx: TransactionView,
    verdict: bool,
) -> bool where
    K: Fn() -> Result<(Vec<u8>, Vec<u8>), ChainError>,
    S: Fn(&[u8], &[u8]) -> Result<Vec<u8>, ChainError>,
    V: Fn(&[u8], &[u8], &[u8]) -> bool,
 {
    pqc.answers(tx.content_hash(), tx.signature, tx.from, verdict)
}

impl TransactionView {
    /// The bytes that are hashed: the sender's key, then the payload in UTF-8.
    /// The signature is left out, since it is made over this hash.
    pub open spec fn content(self) -> Seq<u8> {
        self.from + vstd::utf8::encode_utf8(self.data)
    }

    /// The content hash.
    pub open spec fn content_hash(self) -> Seq<u8> {
        sha256(self.content())@
    }
}

/// The content hash does not depend on the signature.
pub proof fn lemma_content_hash_ignores_signature(tx: TransactionView, signature: Seq<u8>)
    ensures
        (TransactionView { signature, ..tx }).content_hash() == tx.content_hash(),
{
}

impl Transaction {
    /// The content hash: SHA-256 over the sender's key followed by the payload.
    pub fn hash(&self) -> (digest: Vec<u8>)
        ensures
            digest@ == self@.content_hash(),
            digest@.len() == 32,
    {
        let mut content: Vec<u8> = self.from.clone();
        content.extend_from_slice(self.data.as_str().as_bytes());
        assert(content@ =~= self@.content());
        let digest: [u8; 32] = sha256_digest(content.as_slice());
        slice_to_vec(digest.as_slice())
    }

    /// Asks the signature scheme whether `signature` is valid for the content
    /// hash under the sender's key, and hands its answer on.
    pub fn verify<K, S, V>(&self, pqc: &PQC<K, S, V>) -> (ok: bool) where
        K: Fn() -> Result<(Vec<u8>, Vec<u8>), ChainError>,
        S: Fn(&[u8], &[u8]) -> Result<Vec<u8>, ChainError>,
        V: Fn(&[u8], &[u8], &[u8]) -> bool,

        ensures
            signature_verdict(*pqc, self@, ok),
    {
        let digest = self.hash();
        pqc.verify(digest.as_slice(), self.signature.as_slice(), self.from.as_slice())
    }
}

} // verus!
