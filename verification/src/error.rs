use vstd::prelude::*;

verus! {

/// What can go wrong while keys are made, records are signed, or blocks are
/// hashed and mined.
#[derive(Debug, Clone, Copy, PartialEq, Eq)]
pub enum ChainError {
    /// The signature scheme could not be set up.
    PQCInit,
    /// The signature scheme failed to generate a keypair.
    Keypair,
    /// The signature scheme failed to sign.
    Sign,
    /// A transaction batch has no canonical encoding (also reported when a
    /// block is appended to a chain that holds no block).
    Serialize,
    /// No 64-bit nonce gives a hash that meets the difficulty.
    NonceExhausted,
}

impl ChainError {
    /// The text shown for this error.
    pub open spec fn message_text(self) -> Seq<char> {
        match self {
            ChainError::PQCInit => "PQC init gagal"@,
            ChainError::Keypair => "Keypair gagal"@,
            ChainError::Sign => "Sign gagal"@,
            ChainError::Serialize => "Serialize gagal"@,
            ChainError::NonceExhausted => "Nonce habis"@,
        }
    }

    /// The text shown for this error.
    pub fn message(&self) -> (text: String)
        ensures
            text@ == self.message_text(),
    {
        match self {
            ChainError::PQCInit => String::from_str("PQC init gagal"),
            ChainError::Keypair => String::from_str("Keypair gagal"),
            ChainError::Sign => String::from_str("Sign gagal"),
            ChainError::Serialize => String::from_str("Serialize gagal"),
            ChainError::NonceExhausted => String::from_str("Nonce habis"),
        }
    }
}

} // verus!
