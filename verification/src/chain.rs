//! The chain: a genesis block, appended blocks, and end-to-end validation.

use crate::block::{block_hash, mined, outcome_view, Block, BlockView};
use crate::encoding::transaction_views;
use crate::error::ChainError;
use crate::scheme::PQC;
use crate::text::has_leading_zeros;
use crate::transaction::{signature_verdict, Transaction, TransactionView};
use vstd::prelude::*;

verus! {

/// An ordered sequence of blocks and the difficulty they are mined at.
pub struct Blockchain {
    /// The blocks; the first is the genesis block.
    pub chain: Vec<Block>,
    difficulty: usize,
}

/// The values of a sequence of blocks.
pub open spec fn block_views(blocks: Seq<Block>) -> Seq<BlockView> {
    Seq::new(blocks.len(), |i: int| blocks[i]@)
}

/// Every block's stored hash is the hash of its stored fields, and every
/// block but the first names the hash of the block before it.
pub open spec fn hashes_and_links_hold(blocks: Seq<BlockView>) -> bool {
    forall|i: int|
        0 <= i < blocks.len() ==> {
            &&& (#[trigger] blocks[i]).is_sealed()
            &&& i > 0 ==> blocks[i].previous_hash == blocks[i - 1].hash
        }
}

/// What validation answers: `true` exactly when the hashes and links hold and
/// the signature scheme accepted every transaction; `false` when a hash or a
/// link is broken or the scheme rejected some transaction.
pub open spec fn validated<K, S, V>(blocks: Seq<BlockView>, pqc: PQC<K, S, V>, ok: bool) -> bool where
    K: Fn() -> Result<(Vec<u8>, Vec<u8>), ChainError>,
    S: Fn(&[u8], &[u8]) -> Result<Vec<u8>, ChainError>,
    V: Fn(&[u8], &[u8], &[u8]) -> bool,
 {
    if ok {
        &&& hashes_and_links_hold(blocks)
        &&& forall|i: int, j: int|
            0 <= i < blocks.len() && 0 <= j < blocks[i].transactions.len()
                ==> signature_verdict(pqc, #[trigger] blocks[i].transactions[j], true)
    } else {
        ||| !hashes_and_links_hold(blocks)
        ||| exists|i: int, j: int|
            0 <= i < blocks.len() && 0 <= j < blocks[i].transactions.len() && signature_verdict(
                pqc,
                #[trigger] blocks[i].transactions[j],
                false,
            )
    }
}

/// The blocks are what a chain can hold after it was made with `difficulty`
/// and grown by appends alone: the first is a mined genesis block (index 0,
/// previous hash `"0"`, no transactions), and every later one was mined at
/// its position on top of the hash of the block before it.
pub open spec fn is_built(blocks: Seq<BlockView>, difficulty: usize) -> bool
    decreases blocks.len(),
{
    if blocks.len() == 0 {
        false
    } else if blocks.len() == 1 {
        mined(0, "0"@, Seq::empty(), difficulty, Ok(blocks[0]))
    } else {
        &&& is_built(blocks.drop_last(), difficulty)
        &&& mined(
            (blocks.len() - 1) as u32,
            blocks[blocks.len() - 2].hash,
            blocks.last().transactions,
            difficulty,
            Ok(blocks.last()),
        )
    }
}

/// In a chain grown by appends alone, every block is sealed, numbered by its
/// position, mined to the difficulty and linked to the one before; the
/// genesis block has index 0 and the previous hash `"0"`.
pub proof fn lemma_built_chain_shape(blocks: Seq<BlockView>, difficulty: usize)
    requires
        is_built(blocks, difficulty),
    ensures
        blocks.len() >= 1,
        blocks[0].index == 0,
        blocks[0].previous_hash == "0"@,
        blocks[0].transactions.len() == 0,
        hashes_and_links_hold(blocks),
        forall|i: int|
            0 <= i < blocks.len() ==> {
                &&& (#[trigger] blocks[i]).index == i as u32
                &&& has_leading_zeros(blocks[i].hash, difficulty as nat)
            },
    decreases blocks.len(),
{
    if blocks.len() > 1 {
        let front = blocks.drop_last();
        lemma_built_chain_shape(front, difficulty);
        assert forall|i: int| 0 <= i < blocks.len() implies {
            &&& (#[trigger] blocks[i]).is_sealed()
            &&& i > 0 ==> blocks[i].previous_hash == blocks[i - 1].hash
            &&& blocks[i].index == i as u32
            &&& has_leading_zeros(blocks[i].hash, difficulty as nat)
        } by {
            if i < front.len() {
                assert(blocks[i] == front[i]);
                if i > 0 {
                    assert(blocks[i - 1] == front[i - 1]);
                }
            }
        }
        assert(blocks[0] == front[0]);
    }
}

/// Chain linkage: in a chain grown by appends alone, every block after the
/// first names the hash of the block before it.
pub proof fn lemma_built_chain_is_linked(blocks: Seq<BlockView>, difficulty: usize, i: int)
    requires
        is_built(blocks, difficulty),
        1 <= i < blocks.len(),
    ensures
        blocks[i].previous_hash == blocks[i - 1].hash,
{
    lemma_built_chain_shape(blocks, difficulty);
    assert(blocks[i].is_sealed());
}

/// While a chain grown by appends alone holds at most 2^32 blocks, every
/// block's index is its position.
pub proof fn lemma_built_chain_is_numbered(blocks: Seq<BlockView>, difficulty: usize, i: int)
    requires
        is_built(blocks, difficulty),
        0 <= i < blocks.len() <= 0x1_0000_0000,
    ensures
        blocks[i].index == i,
{
    lemma_built_chain_shape(blocks, difficulty);
    assert(blocks[i].is_sealed());
}

/// Validation accepts a chain grown by appends alone whenever the signature
/// scheme rejects none of its transactions.
pub proof fn lemma_built_chain_is_valid<K, S, V>(
    blocks: Seq<BlockView>,
    difficulty: usize,
    pqc: PQC<K, S, V>,
    ok: bool,
) where
    K: Fn() -> Result<(Vec<u8>, Vec<u8>), ChainError>,
    S: Fn(&[u8], &[u8]) -> Result<Vec<u8>, ChainError>,
    V: Fn(&[u8], &[u8], &[u8]) -> bool,

    requires
        is_built(blocks, difficulty),
        validated(blocks, pqc, ok),
        forall|i: int, j: int|
            0 <= i < blocks.len() && 0 <= j < blocks[i].transactions.len()
                ==> !signature_verdict(pqc, #[trigger] blocks[i].transactions[j], false),
    ensures
        ok,
{
    lemma_built_chain_shape(blocks, difficulty);
}

/// Validation rejects a chain in which the stored hash of a sealed block was
/// replaced by any other text.
pub proof fn lemma_altered_hash_is_rejected<K, S, V>(
    blocks: Seq<BlockView>,
    i: int,
    hash: Seq<char>,
    pqc: PQC<K, S, V>,
    ok: bool,
) where
    K: Fn() -> Result<(Vec<u8>, Vec<u8>), ChainError>,
    S: Fn(&[u8], &[u8]) -> Result<Vec<u8>, ChainError>,
    V: Fn(&[u8], &[u8], &[u8]) -> bool,

    requires
        0 <= i < blocks.len(),
        blocks[i].is_sealed(),
        hash != blocks[i].hash,
        validated(blocks.update(i, (BlockView { hash, ..blocks[i] })), pqc, ok),
    ensures
        !ok,
{
    let altered = blocks.update(i, (BlockView { hash, ..blocks[i] }));
    assert(!altered[i].is_sealed());
}

/// Validation rejects a chain in which a block after the first names
/// anything but the hash of the block before it.
pub proof fn lemma_altered_link_is_rejected<K, S, V>(
    blocks: Seq<BlockView>,
    i: int,
    previous_hash: Seq<char>,
    pqc: PQC<K, S, V>,
    ok: bool,
) where
    K: Fn() -> Result<(Vec<u8>, Vec<u8>), ChainError>,
    S: Fn(&[u8], &[u8]) -> Result<Vec<u8>, ChainError>,
    V: Fn(&[u8], &[u8], &[u8]) -> bool,

    requires
        1 <= i < blocks.len(),
        previous_hash != blocks[i - 1].hash,
        validated(blocks.update(i, (BlockView { previous_hash, ..blocks[i] })), pqc, ok),
    ensures
        !ok,
{
    let altered = blocks.update(i, (BlockView { previous_hash, ..blocks[i] }));
    assert(altered[i].previous_hash != altered[i - 1].hash);
}

/// Validation accepts a chain in which a transaction of a sealed block was
/// replaced only if the block's hash is also the hash of the altered batch
/// and the signature scheme accepts the replacement.
pub proof fn lemma_altered_transaction_passes_only_by_collision<K, S, V>(
    blocks: Seq<BlockView>,
    i: int,
    j: int,
    tx: TransactionView,
    pqc: PQC<K, S, V>,
    ok: bool,
) where
    K: Fn() -> Result<(Vec<u8>, Vec<u8>), ChainError>,
    S: Fn(&[u8], &[u8]) -> Result<Vec<u8>, ChainError>,
    V: Fn(&[u8], &[u8], &[u8]) -> bool,

    requires
        0 <= i < blocks.len(),
        0 <= j < blocks[i].transactions.len(),
        blocks[i].is_sealed(),
        validated(
            blocks.update(
                i,
                (BlockView { transactions: blocks[i].transactions.update(j, tx), ..blocks[i] }),
            ),
            pqc,
            ok,
        ),
        ok,
    ensures
        block_hash(
            blocks[i].index,
            blocks[i].previous_hash,
            blocks[i].transactions.update(j, tx),
            blocks[i].nonce,
        ) == block_hash(
            blocks[i].index,
            blocks[i].previous_hash,
            blocks[i].transactions,
            blocks[i].nonce,
        ),
        signature_verdict(pqc, tx, true),
{
    let altered = blocks.update(
        i,
        (BlockView { transactions: blocks[i].transactions.update(j, tx), ..blocks[i] }),
    );
    assert(altered[i].is_sealed());
    assert(altered[i].transactions[j] == tx);
}

impl Blockchain {
    /// The difficulty the chain was made with.
    pub closed spec fn difficulty(&self) -> usize {
        self.difficulty
    }

    /// The blocks held, in order.
    pub closed spec fn entries(&self) -> Seq<Block> {
        self.chain@
    }

    /// The values of the blocks.
    pub open spec fn blocks(&self) -> Seq<BlockView> {
        block_views(self.entries())
    }

    /// A chain that holds a freshly mined genesis block: index 0, previous
    /// hash `"0"`, no transactions.
    ///
    /// Fails with `ChainError::NonceExhausted` exactly when no nonce gives the
    /// genesis block a hash that meets `difficulty`.
    pub fn new(difficulty: usize) -> (r: Result<Blockchain, ChainError>)
        ensures
            match r {
                Ok(chain) => {
                    &&& chain.difficulty() == difficulty
                    &&& chain.blocks().len() == 1
                    &&& is_built(chain.blocks(), difficulty)
                },
                Err(e) => e == ChainError::NonceExhausted && mined(
                    0,
                    "0"@,
                    Seq::empty(),
                    difficulty,
                    Err(e),
                ),
            },
    {
        let txs: Vec<Transaction> = Vec::new();
        assert(transaction_views(txs@) =~= Seq::empty());
        let genesis = match Block::mine(0, String::from_str("0"), txs, difficulty) {
            Ok(block) => block,
            Err(e) => {
                return Err(e);
            },
        };
        let mut chain: Vec<Block> = Vec::new();
        chain.push(genesis);
        let made = Blockchain { chain, difficulty };
        Ok(made)
    }

    /// Mines a block that holds `txs` on top of the last block, and appends
    /// it.
    ///
    /// The new block's index is the chain's length (its low 32 bits, should
    /// the chain ever hold more than 2^32 blocks) and its previous hash is the
    /// last block's hash. On failure the chain is left as it was:
    /// `ChainError::Serialize` when the chain holds no block or the
    /// transactions have no canonical text, `ChainError::NonceExhausted` when
    /// no nonce solves the puzzle.
    pub fn add_block(&mut self, txs: Vec<Transaction>) -> (r: Result<(), ChainError>)
        ensures
            final(self).difficulty() == old(self).difficulty(),
            match r {
                Ok(_) => {
                    &&& old(self).entries().len() > 0
                    &&& final(self).entries().len() == old(self).entries().len() + 1
                    &&& final(self).entries().drop_last() == old(self).entries()
                    &&& mined(
                        old(self).entries().len() as u32,
                        old(self).entries().last().hash@,
                        transaction_views(txs@),
                        old(self).difficulty(),
                        Ok(final(self).entries().last()@),
                    )
                },
                Err(e) => {
                    &&& final(self).entries() == old(self).entries()
                    &&& if old(self).entries().len() == 0 {
                        e == ChainError::Serialize
                    } else {
                        mined(
                            old(self).entries().len() as u32,
                            old(self).entries().last().hash@,
                            transaction_views(txs@),
                            old(self).difficulty(),
                            Err(e),
                        )
                    }
                },
            },
            is_built(old(self).blocks(), old(self).difficulty()) ==> is_built(
                final(self).blocks(),
                final(self).difficulty(),
            ),
    {
        let len: usize = self.chain.len();
        if len == 0 {
            return Err(ChainError::Serialize);
        }
        let last_hash: String = self.chain[len - 1].hash.clone();
        let block = match Block::mine(len as u32, last_hash, txs, self.difficulty) {
            Ok(block) => block,
            Err(e) => {
                return Err(e);
            },
        };
        self.chain.push(block);
        proof {
            let before = old(self).blocks();
            let after = self.blocks();
            assert(self.chain@.drop_last() =~= old(self).entries());
            assert(after.drop_last() =~= before);
            assert(after.last() == block@);
        }
        Ok(())
    }

    /// Walks the chain from the genesis block: recomputes every block's hash
    /// from its stored fields, checks every link, and asks the signature
    /// scheme about every transaction. Stops at the first failure.
    pub fn is_valid<K, S, V>(&self, pqc: &PQC<K, S, V>) -> (ok: bool) where
        K: Fn() -> Result<(Vec<u8>, Vec<u8>), ChainError>,
        S: Fn(&[u8], &[u8]) -> Result<Vec<u8>, ChainError>,
        V: Fn(&[u8], &[u8], &[u8]) -> bool,

        ensures
            validated(self.blocks(), *pqc, ok),
    {
        let ghost blocks = self.blocks();
        let mut i: usize = 0;
        while i < self.chain.len()
            invariant
                i <= self.chain.len(),
                blocks == self.blocks(),
                forall|a: int|
                    0 <= a < i ==> {
                        &&& (#[trigger] blocks[a]).is_sealed()
                        &&& a > 0 ==> blocks[a].previous_hash == blocks[a - 1].hash
                    },
                forall|a: int, b: int|
                    0 <= a < i && 0 <= b < blocks[a].transactions.len() ==> signature_verdict(
                        *pqc,
                        #[trigger] blocks[a].transactions[b],
                        true,
                    ),
            decreases self.chain.len() - i,
        {
            let block: &Block = &self.chain[i];
            assert(blocks[i as int] == block@);
            let recalculated = match Block::calculate_hash(
                block.index,
                block.previous_hash.as_str(),
                &block.transactions,
                block.nonce,
            ) {
                Ok(hash) => hash,
                Err(_) => {
                    return false;
                },
            };
            if block.hash != recalculated {
                return false;
            }
            if i > 0 {
                assert(blocks[i - 1] == self.chain@[i - 1]@);
                if block.previous_hash != self.chain[i - 1].hash {
                    return false;
                }
            }
            let mut j: usize = 0;
            while j < block.transactions.len()
                invariant
                    j <= block.transactions.len(),
                    i < self.chain.len(),
                    blocks == self.blocks(),
                    blocks[i as int] == block@,
                        forall|b: int|
                        0 <= b < j ==> signature_verdict(
                            *pqc,
                            #[trigger] blocks[i as int].transactions[b],
                            true,
                        ),
                decreases block.transactions.len() - j,
            {
                let tx: &Transaction = &block.transactions[j];
                assert(blocks[i as int].transactions[j as int] == tx@);
                if !tx.verify(pqc) {
                    return false;
                }
                j = j + 1;
            }
            i = i + 1;
        }
        true
    }
}

} // verus!
