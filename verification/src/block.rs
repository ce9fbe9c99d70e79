//! Blocks: the hash that seals one, and the proof-of-work search for it.

use crate::digest::{sha256, sha256_digest};
use crate::encoding::{encode_transactions, transaction_views, transactions_to_json};
use crate::error::ChainError;
use crate::text::{decimal_text, has_leading_zeros, hex_encode, hex_text, push_decimal,
    starts_with_zeros};
use crate::transaction::{Transaction, TransactionView};
use vstd::prelude::*;

verus! {

/// A batch of transactions bound to a place in the chain.
#[derive(Debug, Clone)]
pub struct Block {
    /// The position in the chain; the genesis block has index 0.
    pub index: u32,
    /// The hash of the block before this one (`"0"` for the genesis block).
    pub previous_hash: String,
    /// The hash that seals this block, in lower-case hexadecimal.
    pub hash: String,
    /// The transactions, in order.
    pub transactions: Vec<Transaction>,
    /// The nonce found by mining.
    pub nonce: u64,
}

/// The mathematical value of a [`Block`].
pub ghost struct BlockView {
    pub index: u32,
    pub previous_hash: Seq<char>,
    pub hash: Seq<char>,
    pub transactions: Seq<TransactionView>,
    pub nonce: u64,
}

impl View for Block {
    type V = BlockView;

    open spec fn view(&self) -> BlockView {
        BlockView {
            index: self.index,
            previous_hash: self.previous_hash@,
            hash: self.hash@,
            transactions: transaction_views(self.transactions@),
            nonce: self.nonce,
        }
    }
}

/// The number of characters in a block hash.
pub const HASH_LEN: usize = 64;

/// The text that is hashed: the index in decimal, the previous hash, the
/// canonical text of the transactions, and the nonce in decimal, with nothing
/// between them.
pub open spec fn hash_input(index: u32, previous_hash: Seq<char>, encoded: Seq<char>, nonce: u64)
    -> Seq<char> {
    decimal_text(index as nat) + previous_hash + encoded + decimal_text(nonce as nat)
}

/// The hash of a block whose transactions have the canonical text `encoded`:
/// SHA-256 over the UTF-8 bytes of [`hash_input`], in hexadecimal.
pub open spec fn hash_of_encoded(
    index: u32,
    previous_hash: Seq<char>,
    encoded: Seq<char>,
    nonce: u64,
) -> Seq<char> {
    hex_text(sha256(vstd::utf8::encode_utf8(hash_input(index, previous_hash, encoded, nonce)))@)
}

/// The hash of a block, or `None` where its transactions have no canonical
/// text.
pub open spec fn block_hash(
    index: u32,
    previous_hash: Seq<char>,
    transactions: Seq<TransactionView>,
    nonce: u64,
) -> Option<Seq<char>> {
    match encode_transactions(transactions) {
        Some(encoded) => Some(hash_of_encoded(index, previous_hash, encoded, nonce)),
        None => None,
    }
}

/// What [`Block::calculate_hash`] returns for given arguments: the block
/// hash, or `ChainError::Serialize` exactly when there is none.
pub open spec fn hashed(
    index: u32,
    previous_hash: Seq<char>,
    transactions: Seq<TransactionView>,
    nonce: u64,
    outcome: Result<Seq<char>, ChainError>,
) -> bool {
    match outcome {
        Ok(hash) => block_hash(index, previous_hash, transactions, nonce) == Some(hash),
        Err(e) => e == ChainError::Serialize && block_hash(
            index,
            previous_hash,
            transactions,
            nonce,
        ) is None,
    }
}

/// `nonce` solves the puzzle: the block's hash exists and begins with at
/// least `difficulty` zeros.
pub open spec fn solves(
    index: u32,
    previous_hash: Seq<char>,
    transactions: Seq<TransactionView>,
    difficulty: usize,
    nonce: u64,
) -> bool {
    match block_hash(index, previous_hash, transactions, nonce) {
        Some(hash) => has_leading_zeros(hash, difficulty as nat),
        None => false,
    }
}

/// What [`Block::mine`] returns for given arguments.
///
/// A block comes back exactly when the transactions have a canonical text and
/// some nonce solves the puzzle; it then holds the arguments, the least such
/// nonce and the hash that goes with it.
pub open spec fn mined(
    index: u32,
    previous_hash: Seq<char>,
    transactions: Seq<TransactionView>,
    difficulty: usize,
    outcome: Result<BlockView, ChainError>,
) -> bool {
    match outcome {
        Ok(block) => {
            &&& block.index == index
            &&& block.previous_hash == previous_hash
            &&& block.transactions == transactions
            &&& block_hash(index, previous_hash, transactions, block.nonce) == Some(block.hash)
            &&& has_leading_zeros(block.hash, difficulty as nat)
            &&& forall|n: u64|
                n < block.nonce ==> !#[trigger] solves(
                    index,
                    previous_hash,
                    transactions,
                    difficulty,
                    n,
                )
        },
        Err(ChainError::Serialize) => encode_transactions(transactions) is None,
        Err(ChainError::NonceExhausted) => {
            &&& encode_transactions(transactions) is Some
            &&& forall|n: u64|
                !#[trigger] solves(index, previous_hash, transactions, difficulty, n)
        },
        Err(_) => false,
    }
}

impl BlockView {
    /// The stored hash is the hash of the stored fields.
    pub open spec fn is_sealed(self) -> bool {
        block_hash(self.index, self.previous_hash, self.transactions, self.nonce) == Some(
            self.hash,
        )
    }
}

/// The view of a hashing outcome.
pub open spec fn text_outcome(outcome: Result<String, ChainError>) -> Result<
    Seq<char>,
    ChainError,
> {
    match outcome {
        Ok(text) => Ok(text@),
        Err(e) => Err(e),
    }
}

/// The view of a mining outcome.
pub open spec fn outcome_view(outcome: Result<Block, ChainError>) -> Result<BlockView, ChainError> {
    match outcome {
        Ok(block) => Ok(block@),
        Err(e) => Err(e),
    }
}

/// Every block hash has [`HASH_LEN`] characters.
pub proof fn lemma_hash_len(index: u32, previous_hash: Seq<char>, encoded: Seq<char>, nonce: u64)
    ensures
        hash_of_encoded(index, previous_hash, encoded, nonce).len() == HASH_LEN,
{
}

/// Hashing is a function of its arguments: two outcomes for the same index,
/// previous hash, transactions and nonce are the same outcome.
pub proof fn lemma_hash_is_deterministic(
    index: u32,
    previous_hash: Seq<char>,
    transactions: Seq<TransactionView>,
    nonce: u64,
    first: Result<Seq<char>, ChainError>,
    second: Result<Seq<char>, ChainError>,
)
    requires
        hashed(index, previous_hash, transactions, nonce, first),
        hashed(index, previous_hash, transactions, nonce, second),
    ensures
        first == second,
{
}

/// A mined block's hash begins with at least `difficulty` zeros.
pub proof fn lemma_mined_block_meets_difficulty(
    index: u32,
    previous_hash: Seq<char>,
    transactions: Seq<TransactionView>,
    difficulty: usize,
    block: BlockView,
)
    requires
        mined(index, previous_hash, transactions, difficulty, Ok(block)),
    ensures
        has_leading_zeros(block.hash, difficulty as nat),
        difficulty <= HASH_LEN,
{
    let encoded = encode_transactions(transactions)->0;
    lemma_hash_len(index, previous_hash, encoded, block.nonce);
}

/// Hashing a mined block's own fields again gives its stored hash.
pub proof fn lemma_mined_block_is_self_consistent(
    index: u32,
    previous_hash: Seq<char>,
    transactions: Seq<TransactionView>,
    difficulty: usize,
    block: BlockView,
    rehashed: Result<Seq<char>, ChainError>,
)
    requires
        mined(index, previous_hash, transactions, difficulty, Ok(block)),
        hashed(block.index, block.previous_hash, block.transactions, block.nonce, rehashed),
    ensures
        rehashed == Ok::<Seq<char>, ChainError>(block.hash),
        block.is_sealed(),
{
}

/// Mining is a function of its arguments: two outcomes for the same index,
/// previous hash, transactions and difficulty are the same outcome.
pub proof fn lemma_mining_is_deterministic(
    index: u32,
    previous_hash: Seq<char>,
    transactions: Seq<TransactionView>,
    difficulty: usize,
    first: Result<BlockView, ChainError>,
    second: Result<BlockView, ChainError>,
)
    requires
        mined(index, previous_hash, transactions, difficulty, first),
        mined(index, previous_hash, transactions, difficulty, second),
    ensures
        first == second,
{
    match (first, second) {
        (Ok(a), Ok(b)) => {
            assert(solves(index, previous_hash, transactions, difficulty, a.nonce));
            assert(solves(index, previous_hash, transactions, difficulty, b.nonce));
        },
        (Ok(a), Err(_)) => {
            assert(solves(index, previous_hash, transactions, difficulty, a.nonce));
        },
        (Err(_), Ok(b)) => {
            assert(solves(index, previous_hash, transactions, difficulty, b.nonce));
        },
        (Err(_), Err(_)) => {},
    }
}

/// At difficulty 0 every hash qualifies: mining stops at nonce 0, and fails
/// only where the transactions have no canonical text.
pub proof fn lemma_difficulty_zero_is_met_at_once(
    index: u32,
    previous_hash: Seq<char>,
    transactions: Seq<TransactionView>,
    outcome: Result<BlockView, ChainError>,
)
    requires
        mined(index, previous_hash, transactions, 0, outcome),
    ensures
        match outcome {
            Ok(block) => block.nonce == 0,
            Err(e) => e == ChainError::Serialize,
        },
{
    if encode_transactions(transactions) is Some {
        assert(solves(index, previous_hash, transactions, 0, 0));
    }
}

impl Block {
    /// The hash of a block whose transactions have the canonical text
    /// `encoded`.
    pub fn hash_encoded(index: u32, prev: &str, encoded: &str, nonce: u64) -> (hash: String)
        ensures
            hash@ == hash_of_encoded(index, prev@, encoded@, nonce),
    {
        let mut input = String::new();
        push_decimal(&mut input, index as u64);
        input.append(prev);
        input.append(encoded);
        push_decimal(&mut input, nonce);
        assert(input@ =~= hash_input(index, prev@, encoded@, nonce));
        let digest: [u8; 32] = sha256_digest(input.as_str().as_bytes());
        hex_encode(digest.as_slice())
    }

    /// The hash of a block with the given fields.
    ///
    /// Fails with `ChainError::Serialize` exactly when the transactions have
    /// no canonical text.
    pub fn calculate_hash(index: u32, prev: &str, txs: &Vec<Transaction>, nonce: u64) -> (r:
        Result<String, ChainError>)
        ensures
            hashed(index, prev@, transaction_views(txs@), nonce, text_outcome(r)),
    {
        let encoded = match transactions_to_json(txs) {
            Ok(encoded) => encoded,
            Err(e) => {
                return Err(e);
            },
        };
        Ok(Block::hash_encoded(index, prev, encoded.as_str(), nonce))
    }

    /// Searches the nonces from 0 upwards for the first whose hash begins
    /// with at least `difficulty` zeros, and returns the block sealed by it.
    ///
    /// Fails with `ChainError::Serialize` when the transactions have no
    /// canonical text, and with `ChainError::NonceExhausted` when no 64-bit
    /// nonce solves the puzzle (as for every difficulty above [`HASH_LEN`]).
    pub fn mine(index: u32, prev: String, txs: Vec<Transaction>, difficulty: usize) -> (r: Result<
        Block,
        ChainError,
    >)
        ensures
            mined(index, prev@, transaction_views(txs@), difficulty, outcome_view(r)),
    {
        let ghost views = transaction_views(txs@);
        let encoded = match transactions_to_json(&txs) {
            Ok(encoded) => encoded,
            Err(e) => {
                return Err(e);
            },
        };
        if difficulty > HASH_LEN {
            assert forall|n: u64| !#[trigger] solves(index, prev@, views, difficulty, n) by {
                lemma_hash_len(index, prev@, encoded@, n);
            }
            return Err(ChainError::NonceExhausted);
        }
        let mut nonce: u64 = 0;
        loop
            invariant
                views == transaction_views(txs@),
                encode_transactions(views) == Some(encoded@),
                forall|n: u64| n < nonce ==> !#[trigger] solves(index, prev@, views, difficulty, n),
            decreases u64::MAX - nonce,
        {
            let hash = Block::hash_encoded(index, prev.as_str(), encoded.as_str(), nonce);
            if starts_with_zeros(hash.as_str(), difficulty) {
                return Ok(
                    Block { index, previous_hash: prev, hash, transactions: txs, nonce },
                );
            }
            if nonce == u64::MAX {
                return Err(ChainError::NonceExhausted);
            }
            nonce = nonce + 1;
        }
    }
}

} // verus!
