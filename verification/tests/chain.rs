use pqc_chain::{Block, Blockchain, ChainError, Transaction, Wallet, PQC};
use sha2::{Digest, Sha256};

// A stand-in signature scheme for these tests: the public key equals the
// secret key, and a signature is the SHA-256 of the key followed by the
// message.

const KEY_LEN: usize = 16;

fn stand_in_keypair() -> Result<(Vec<u8>, Vec<u8>), ChainError> {
    let key: Vec<u8> = (1..=KEY_LEN as u8).collect();
    Ok((key.clone(), key))
}

fn stand_in_sign(message: &[u8], secret_key: &[u8]) -> Result<Vec<u8>, ChainError> {
    if secret_key.len() != KEY_LEN {
        return Err(ChainError::Sign);
    }
    let mut hasher = Sha256::new();
    hasher.update(secret_key);
    hasher.update(message);
    Ok(hasher.finalize().to_vec())
}

fn stand_in_verify(message: &[u8], signature: &[u8], public_key: &[u8]) -> bool {
    match stand_in_sign(message, public_key) {
        Ok(expected) => expected == signature,
        Err(_) => false,
    }
}

fn always(_: &[u8], _: &[u8], _: &[u8]) -> bool {
    true
}

fn never(_: &[u8], _: &[u8], _: &[u8]) -> bool {
    false
}

fn signed(wallet: &Wallet, payload: &str) -> Transaction {
    let pqc = PQC::new(stand_in_keypair, stand_in_sign, stand_in_verify);
    let mut tx =
        Transaction { from: wallet.public_key.clone(), data: payload.to_string(), signature: vec![] };
    tx.signature = wallet.sign(&pqc, &tx.hash()).unwrap();
    tx
}

fn is_valid(chain: &Blockchain) -> bool {
    chain.is_valid(&PQC::new(stand_in_keypair, stand_in_sign, stand_in_verify))
}

fn chain_of(difficulty: usize, batches: usize) -> Blockchain {
    let wallet = Wallet::new(&PQC::new(stand_in_keypair, stand_in_sign, stand_in_verify)).unwrap();
    let mut chain = match Blockchain::new(difficulty) {
        Ok(chain) => chain,
        Err(e) => panic!("no genesis block: {:?}", e),
    };
    for batch in 0..batches {
        let txs = vec![
            signed(&wallet, &format!("payload {}", batch)),
            signed(&wallet, "Transfer PQC Data"),
        ];
        assert_eq!(chain.add_block(txs), Ok(()));
    }
    chain
}

#[test]
fn new_chain_holds_a_mined_genesis_block() {
    let chain = chain_of(3, 0);
    assert_eq!(chain.chain.len(), 1);
    let genesis = &chain.chain[0];
    assert_eq!(genesis.index, 0);
    assert_eq!(genesis.previous_hash, "0");
    assert!(genesis.transactions.is_empty());
    assert!(genesis.hash.starts_with("000"));
    assert_eq!(genesis.nonce, 6628);
    assert_eq!(genesis.hash, "000bd21be343479fa35c4ac2ed40bc31da1f95b8576b97876583103d0b7c6eac");
}

#[test]
fn new_chain_at_difficulty_zero_takes_nonce_zero() {
    let chain = chain_of(0, 0);
    assert_eq!(chain.chain[0].nonce, 0);
    assert_eq!(
        chain.chain[0].hash,
        "66c1f978d80ce2da318e5c65283d0668fd5dfe593644ae9fd7496bd2f91be72b"
    );
}

#[test]
fn new_chain_above_the_hash_length_reports_exhaustion() {
    assert_eq!(Blockchain::new(65).err(), Some(ChainError::NonceExhausted));
}

#[test]
fn genesis_append_validate_and_tamper() {
    let pqc = PQC::new(stand_in_keypair, stand_in_sign, stand_in_verify);
    let wallet = Wallet::new(&pqc).unwrap();
    let mut chain = match Blockchain::new(3) {
        Ok(chain) => chain,
        Err(e) => panic!("no genesis block: {:?}", e),
    };
    assert!(chain.chain[0].hash.starts_with("000"));

    let tx = signed(&wallet, "Transfer PQC Data");
    assert_eq!(tx.from, wallet.public_key);
    assert_eq!(chain.add_block(vec![tx]), Ok(()));
    assert_eq!(chain.chain.len(), 2);
    assert_eq!(chain.chain[1].previous_hash, chain.chain[0].hash);
    assert!(chain.is_valid(&pqc));

    chain.chain[1].transactions[0].signature[0] ^= 1;
    assert!(!chain.is_valid(&pqc));
}

#[test]
fn appended_blocks_are_numbered_linked_and_mined() {
    let chain = chain_of(2, 4);
    assert_eq!(chain.chain.len(), 5);
    for i in 0..chain.chain.len() {
        assert_eq!(chain.chain[i].index as usize, i);
        assert!(chain.chain[i].hash.starts_with("00"));
    }
    for i in 1..chain.chain.len() {
        assert_eq!(chain.chain[i].previous_hash, chain.chain[i - 1].hash);
    }
}

#[test]
fn appended_block_holds_the_batch_in_order() {
    let chain = chain_of(1, 2);
    assert_eq!(chain.chain[1].transactions.len(), 2);
    assert_eq!(chain.chain[1].transactions[0].data, "payload 0");
    assert_eq!(chain.chain[1].transactions[1].data, "Transfer PQC Data");
    assert_eq!(chain.chain[2].transactions[0].data, "payload 1");
}

#[test]
fn appended_block_is_the_one_mining_gives() {
    let wallet = Wallet::new(&PQC::new(stand_in_keypair, stand_in_sign, stand_in_verify)).unwrap();
    let mut chain = chain_of(2, 1);
    let txs = vec![signed(&wallet, "next")];
    let expected = Block::mine(2, chain.chain[1].hash.clone(), txs.clone(), 2).unwrap();
    assert_eq!(chain.add_block(txs), Ok(()));
    assert_eq!(chain.chain[2].index, 2);
    assert_eq!(chain.chain[2].nonce, expected.nonce);
    assert_eq!(chain.chain[2].hash, expected.hash);
    assert_eq!(chain.chain[2].previous_hash, expected.previous_hash);
}

#[test]
fn every_block_of_a_built_chain_rehashes_to_its_hash() {
    let chain = chain_of(1, 3);
    for block in &chain.chain {
        assert_eq!(
            Block::calculate_hash(
                block.index,
                &block.previous_hash,
                &block.transactions,
                block.nonce
            ),
            Ok(block.hash.clone())
        );
    }
}

#[test]
fn add_block_accepts_an_empty_batch() {
    let mut chain = chain_of(1, 0);
    assert_eq!(chain.add_block(vec![]), Ok(()));
    assert_eq!(chain.chain.len(), 2);
    assert!(chain.chain[1].transactions.is_empty());
    assert!(is_valid(&chain));
}

#[test]
fn add_block_to_an_emptied_chain_fails_and_adds_nothing() {
    let mut chain = chain_of(1, 0);
    chain.chain.clear();
    assert_eq!(chain.add_block(vec![]), Err(ChainError::Serialize));
    assert!(chain.chain.is_empty());
}

#[test]
fn built_chain_with_genuine_signatures_is_valid() {
    assert!(is_valid(&chain_of(0, 0)));
    assert!(is_valid(&chain_of(2, 0)));
    assert!(is_valid(&chain_of(2, 3)));
}

#[test]
fn an_emptied_chain_is_valid() {
    let mut chain = chain_of(1, 1);
    chain.chain.clear();
    assert!(is_valid(&chain));
}

#[test]
fn altered_hash_makes_the_chain_invalid() {
    for position in 0..3 {
        let mut chain = chain_of(1, 2);
        chain.chain[position].hash =
            "0000000000000000000000000000000000000000000000000000000000000000".to_string();
        assert!(!is_valid(&chain));
    }
}

#[test]
fn altered_previous_hash_makes_the_chain_invalid() {
    for position in 0..3 {
        let mut chain = chain_of(1, 2);
        chain.chain[position].previous_hash = "0bad".to_string();
        assert!(!is_valid(&chain));
    }
}

#[test]
fn relinked_and_resealed_block_breaks_the_link_check() {
    let mut chain = chain_of(1, 2);
    let block = chain.chain[2].clone();
    chain.chain[2] = Block::mine(block.index, "0bad".to_string(), block.transactions, 1).unwrap();
    assert!(!is_valid(&chain));
}

#[test]
fn altered_signature_makes_the_chain_invalid() {
    let mut chain = chain_of(1, 2);
    chain.chain[2].transactions[1].signature[5] ^= 0x80;
    assert!(!is_valid(&chain));
}

#[test]
fn altered_signature_in_a_resealed_block_is_caught_by_the_scheme() {
    let mut chain = chain_of(1, 1);
    let mut block = chain.chain[1].clone();
    block.transactions[0].signature[0] ^= 1;
    chain.chain[1] =
        Block::mine(block.index, block.previous_hash, block.transactions, 1).unwrap();
    assert!(!is_valid(&chain));
    assert!(chain.is_valid(&PQC::new(stand_in_keypair, stand_in_sign, always)));
}

#[test]
fn altered_payload_index_or_nonce_makes_the_chain_invalid() {
    let mut chain = chain_of(1, 2);
    chain.chain[1].transactions[0].data.push('!');
    assert!(!is_valid(&chain));

    let mut chain = chain_of(1, 2);
    chain.chain[1].index = 7;
    assert!(!is_valid(&chain));

    let mut chain = chain_of(1, 2);
    chain.chain[2].nonce += 1;
    assert!(!is_valid(&chain));
}

#[test]
fn a_rejecting_scheme_makes_only_signed_chains_invalid() {
    let reject = PQC::new(stand_in_keypair, stand_in_sign, never);
    assert!(chain_of(1, 0).is_valid(&reject));
    assert!(!chain_of(1, 1).is_valid(&reject));
}

#[test]
fn validation_does_not_ask_for_the_difficulty_again() {
    let mut chain = chain_of(2, 1);
    let block = chain.chain[1].clone();
    let easy = Block::mine(block.index, block.previous_hash, block.transactions, 0).unwrap();
    assert_eq!(easy.nonce, 0);
    chain.chain[1] = easy;
    assert!(is_valid(&chain));
}

#[test]
fn stand_in_scheme_rejects_wrong_length_wrong_key_and_altered_payload() {
    let pqc = PQC::new(stand_in_keypair, stand_in_sign, stand_in_verify);
    let wallet = Wallet::new(&pqc).unwrap();
    let genuine = signed(&wallet, "Transfer PQC Data");
    assert!(genuine.verify(&pqc));

    let mut short = genuine.clone();
    short.signature.pop();
    assert!(!short.verify(&pqc));

    let mut long = genuine.clone();
    long.signature.push(0);
    assert!(!long.verify(&pqc));

    let mut other_key = genuine.clone();
    other_key.from[0] ^= 1;
    assert!(!other_key.verify(&pqc));

    let mut malformed_key = genuine.clone();
    malformed_key.from.truncate(3);
    assert!(!malformed_key.verify(&pqc));

    let mut altered = genuine.clone();
    altered.data.push('.');
    assert!(!altered.verify(&pqc));
}
