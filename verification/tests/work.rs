use blockchain_core::{Block, Blockchain, ConsensusType, ProofOfWork};
use sha2::{Digest, Sha256};

fn sha256_hex_reference(input: &str) -> String {
    let digest = Sha256::digest(input.as_bytes());
    let mut out = String::new();
    for byte in digest.as_slice() {
        out.push_str(&format!("{:02x}", byte));
    }
    out
}

#[test]
fn test_work_prefix_and_rehash_for_small_difficulties() {
    for difficulty in 0..=4usize {
        let mut pow = ProofOfWork::new(difficulty);
        let mut block = Block::new_with_difficulty(
            1,
            "payload".to_string(),
            "prev".to_string(),
            difficulty,
        );
        let result = pow.execute_consensus(&mut block).unwrap();
        let hash = &result.block.hash;
        assert!(hash.chars().take(difficulty).all(|c| c == '0'));
        // re-hashing the fields at the stored nonce reproduces the digest
        let message = format!(
            "{}{}{}{}{}{}",
            block.index, block.timestamp, block.data, block.previous_hash, block.nonce, difficulty
        );
        assert_eq!(&sha256_hex_reference(&message), hash);
        assert!(pow.validate_block(&block));
    }
}

#[test]
fn test_work_validate_rejects_tampering() {
    let mut pow = ProofOfWork::new(1);
    let mut block = Block::new_with_difficulty(3, "data".to_string(), "p".to_string(), 1);
    pow.execute_consensus(&mut block).unwrap();
    assert!(pow.validate_block(&block));
    block.nonce = block.nonce.wrapping_add(1);
    assert!(!pow.validate_block(&block));
}

#[test]
fn test_basic_hash_matches_reference_digest() {
    let block = Block::new_with_difficulty(7, "abc".to_string(), "00ff".to_string(), 2);
    let message = format!(
        "{}{}{}{}{}{}",
        block.index, block.timestamp, block.data, block.previous_hash, block.nonce, block.difficulty
    );
    assert_eq!(block.calculate_basic_hash(), sha256_hex_reference(&message));
    assert_eq!(block.calculate_hash(), block.calculate_basic_hash());
}

#[test]
fn test_block_mine_block_stamps_proof() {
    let mut block = Block::new_with_difficulty(0, "genesis-ish".to_string(), "0".to_string(), 1);
    block.mine_block();
    assert!(block.hash.starts_with('0'));
    assert_eq!(block.get_consensus_data("difficulty").unwrap().as_str(), "1");
}

#[test]
fn test_standalone_miner_mines_and_validates() {
    let block = Block::new_with_difficulty(2, "standalone".to_string(), "p".to_string(), 1);
    let mut miner = blockchain_core::pow::ProofOfWork::new(block, 1);
    let (nonce, hash) = miner.mine_block();
    assert!(hash.starts_with('0'));
    assert_eq!(miner.block.nonce, nonce);
    assert_eq!(miner.block.hash, hash);
    assert!(miner.validate());
}

#[test]
fn test_work_next_difficulty_adapts() {
    let mut blockchain = Blockchain::new_with_consensus(
        ConsensusType::ProofOfWork { difficulty: 0 },
    )
    .unwrap();
    // blocks land far faster than the sixty-second target, so the rule
    // raises the difficulty by one
    blockchain.add_block("a".to_string()).unwrap();
    blockchain.add_block("b".to_string()).unwrap();
    assert_eq!(blockchain.calculate_adaptive_difficulty(), Some(1));
}

#[test]
fn test_work_energy_is_proportional_to_nonce() {
    let mut pow = ProofOfWork::new(1);
    let mut block = Block::new_with_difficulty(5, "energy".to_string(), "p".to_string(), 1);
    let result = pow.execute_consensus(&mut block).unwrap();
    assert_eq!(result.energy_cost_micro, Some(block.nonce.saturating_mul(100)));
}

#[test]
fn test_consensus_data_round_trip() {
    let mut block = Block::new(9, "d".to_string(), "p".to_string());
    assert!(block.get_consensus_data("algorithm_name").is_none());
    let mut map = blockchain_core::KvMap::new();
    map.insert("algorithm_name".to_string(), "Proof of Work".to_string());
    map.insert("note".to_string(), "x".to_string());
    map.insert("note".to_string(), "y".to_string());
    block.set_consensus_data(map);
    assert_eq!(block.get_consensus_data("note").unwrap(), "y");
    assert!(block.has_consensus_type("Proof of Work"));
    assert!(!block.has_consensus_type("Proof of Stake"));
}
