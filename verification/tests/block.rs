use pqc_chain::{Block, ChainError, Transaction};

fn record(from: &[u8], data: &str, signature: &[u8]) -> Transaction {
    Transaction { from: from.to_vec(), data: data.to_string(), signature: signature.to_vec() }
}

#[test]
fn hash_encoded_hashes_index_previous_hash_text_and_nonce() {
    assert_eq!(
        Block::hash_encoded(0, "0", "[]", 0),
        "66c1f978d80ce2da318e5c65283d0668fd5dfe593644ae9fd7496bd2f91be72b"
    );
    assert_eq!(
        Block::hash_encoded(7, "abc", "[]", 42),
        "893d8733a84a58d25b1fe97ec31e8722d166785f61a004599a2bed4d1a3438ca"
    );
}

#[test]
fn calculate_hash_of_an_empty_batch() {
    assert_eq!(
        Block::calculate_hash(0, "0", &vec![], 0),
        Ok("66c1f978d80ce2da318e5c65283d0668fd5dfe593644ae9fd7496bd2f91be72b".to_string())
    );
    assert_eq!(
        Block::calculate_hash(7, "abc", &vec![], 42),
        Ok("893d8733a84a58d25b1fe97ec31e8722d166785f61a004599a2bed4d1a3438ca".to_string())
    );
}

#[test]
fn calculate_hash_covers_the_transactions() {
    let txs = vec![record(&[1, 2, 3], "Transfer PQC Data", &[9, 8])];
    assert_eq!(
        Block::calculate_hash(1, "00ab", &txs, 5),
        Ok("aaa41d933c994cb91e860ccb07a85f12c5dc0d2f73296a48aa6358ba8295497e".to_string())
    );
}

#[test]
fn calculate_hash_is_the_same_on_every_call() {
    let txs = vec![record(&[4, 5], "again", &[6]), record(&[7], "and again", &[])];
    let first = Block::calculate_hash(3, "prev", &txs, 99);
    let second = Block::calculate_hash(3, "prev", &txs, 99);
    assert!(first.is_ok());
    assert_eq!(first, second);
}

#[test]
fn calculate_hash_is_sixty_four_hex_digits() {
    let hash = Block::calculate_hash(12, "f00d", &vec![record(&[1], "x", &[2])], 1).unwrap();
    assert_eq!(hash.len(), 64);
    assert!(hash.chars().all(|c| c.is_ascii_digit() || ('a'..='f').contains(&c)));
}

#[test]
fn calculate_hash_changes_with_each_argument() {
    let txs = vec![record(&[1], "x", &[2])];
    let base = Block::calculate_hash(1, "p", &txs, 0).unwrap();
    assert_ne!(Block::calculate_hash(2, "p", &txs, 0).unwrap(), base);
    assert_ne!(Block::calculate_hash(1, "q", &txs, 0).unwrap(), base);
    assert_ne!(Block::calculate_hash(1, "p", &txs, 1).unwrap(), base);
    assert_ne!(Block::calculate_hash(1, "p", &vec![record(&[1], "y", &[2])], 0).unwrap(), base);
    assert_ne!(Block::calculate_hash(1, "p", &vec![record(&[1], "x", &[3])], 0).unwrap(), base);
}

#[test]
fn mine_at_difficulty_zero_stops_at_nonce_zero() {
    let block = Block::mine(0, "0".to_string(), vec![], 0).unwrap();
    assert_eq!(block.nonce, 0);
    assert_eq!(block.hash, "66c1f978d80ce2da318e5c65283d0668fd5dfe593644ae9fd7496bd2f91be72b");
}

#[test]
fn mine_finds_the_least_nonce() {
    let block = Block::mine(0, "0".to_string(), vec![], 1).unwrap();
    assert_eq!(block.nonce, 7);
    assert_eq!(block.hash, "057a73575eceb1953e2981b02ab891bb9062f487b83dcdd3235793dee1b218b9");

    let block = Block::mine(0, "0".to_string(), vec![], 2).unwrap();
    assert_eq!(block.nonce, 107);
    assert_eq!(block.hash, "007e0c24d822be2da04cffdb9c734daf009f5fda5ad6d9a7adda98348ceb9aa5");

    let block = Block::mine(0, "0".to_string(), vec![], 3).unwrap();
    assert_eq!(block.nonce, 6628);
    assert_eq!(block.hash, "000bd21be343479fa35c4ac2ed40bc31da1f95b8576b97876583103d0b7c6eac");
}

#[test]
fn mine_meets_the_difficulty() {
    let txs = vec![record(&[1, 2, 3], "Transfer PQC Data", &[9, 8])];
    for difficulty in 0..4 {
        let block = Block::mine(5, "00aa".to_string(), txs.clone(), difficulty).unwrap();
        assert!(block.hash.starts_with(&"0".repeat(difficulty)));
    }
}

#[test]
fn mine_keeps_its_arguments() {
    let txs = vec![record(&[1, 2, 3], "Transfer PQC Data", &[9, 8]), record(&[4], "more", &[5])];
    let block = Block::mine(9, "00ff".to_string(), txs, 1).unwrap();
    assert_eq!(block.index, 9);
    assert_eq!(block.previous_hash, "00ff");
    assert_eq!(block.transactions.len(), 2);
    assert_eq!(block.transactions[0].from, vec![1, 2, 3]);
    assert_eq!(block.transactions[0].data, "Transfer PQC Data");
    assert_eq!(block.transactions[0].signature, vec![9, 8]);
    assert_eq!(block.transactions[1].data, "more");
}

#[test]
fn mined_block_rehashes_to_its_own_hash() {
    let txs = vec![record(&[1, 2, 3], "Transfer PQC Data", &[9, 8])];
    let block = Block::mine(4, "00cd".to_string(), txs, 2).unwrap();
    let rehashed =
        Block::calculate_hash(block.index, &block.previous_hash, &block.transactions, block.nonce);
    assert_eq!(rehashed, Ok(block.hash.clone()));
}

#[test]
fn mine_above_the_hash_length_reports_exhaustion() {
    assert_eq!(Block::mine(0, "0".to_string(), vec![], 65).unwrap_err(), ChainError::NonceExhausted);
    assert_eq!(
        Block::mine(1, "0".to_string(), vec![record(&[1], "x", &[2])], usize::MAX).unwrap_err(),
        ChainError::NonceExhausted
    );
}
