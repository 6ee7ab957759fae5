use blockchain_core::{Block, Blockchain, ConsensusType, ProofOfCapacity, ProofOfElapsedTime, ProofOfHistory};

#[test]
fn test_history_chain_advances_and_validates() {
    let mut poh = ProofOfHistory::new(5);
    let mut first = Block::new(1, "one".to_string(), "prev".to_string());
    let result = poh.execute_consensus(&mut first).unwrap();
    assert_eq!(first.nonce, 1);
    assert!(poh.validate_block(&first));
    assert_eq!(
        result.proof_data.get("sequence_number").unwrap().as_str(),
        "1"
    );
    let mut second = Block::new(2, "two".to_string(), first.hash.clone());
    poh.execute_consensus(&mut second).unwrap();
    assert_eq!(second.nonce, 2);
    assert!(poh.validate_block(&second));
    // the chain has moved on, so the first block no longer re-validates
    assert!(!poh.validate_block(&first));
}

#[test]
fn test_history_rejects_zero_nonce() {
    let poh = ProofOfHistory::new(5);
    let block = Block::new(1, "one".to_string(), "prev".to_string());
    assert!(!poh.validate_block(&block));
}

#[test]
fn test_elapsed_time_wait_within_bounds() {
    let base: u64 = 100;
    let mut poet = ProofOfElapsedTime::new(base, "node_7".to_string());
    let mut block = Block::new(1, "payload".to_string(), "prev".to_string());
    poet.execute_consensus(&mut block).unwrap();
    assert!(block.nonce >= base / 2);
    assert!(block.nonce <= base * 2);
    assert_eq!(block.hash.len(), 64);
    assert!(poet.validate_block(&block));
}

#[test]
fn test_elapsed_time_wait_is_deterministic() {
    let mut first = ProofOfElapsedTime::new(100, "node_7".to_string());
    let mut second = ProofOfElapsedTime::new(100, "node_7".to_string());
    let mut block_a = Block::new(1, "payload".to_string(), "prev".to_string());
    let mut block_b = Block::new(1, "payload".to_string(), "prev".to_string());
    first.execute_consensus(&mut block_a).unwrap();
    second.execute_consensus(&mut block_b).unwrap();
    assert_eq!(block_a.nonce, block_b.nonce);
}

#[test]
fn test_capacity_plot_creation_rules() {
    let mut poc = ProofOfCapacity::new(10);
    assert!(poc.create_plot(5, 8).is_err());
    let plot_id = poc.create_plot(20, 8).unwrap();
    assert_eq!(plot_id, "plot_0");
    assert_eq!(poc.plots.len(), 1);
    assert_eq!(poc.plots[0].hash_pairs.len(), 8);
}

#[test]
fn test_capacity_execute_then_validate() {
    let mut poc = ProofOfCapacity::new(1);
    poc.create_plot(5, 16).unwrap();
    poc.create_plot(7, 16).unwrap();
    let mut block = Block::new(1, "payload".to_string(), "prev".to_string());
    let result = poc.execute_consensus(&mut block).unwrap();
    assert_eq!(
        result.proof_data.get("deadline").unwrap().as_str(),
        block.nonce.to_string()
    );
    assert!(poc.validate_block(&block));
}

#[test]
fn test_elapsed_time_verify_proof_checks_certificate() {
    let poet = ProofOfElapsedTime::new(100, "node_7".to_string());
    let block = Block::new(1, "payload".to_string(), "prev".to_string());
    let attestation = "a".repeat(64);
    assert!(!poet.verify_poet_proof(&block, "wrong certificate", &attestation));
}

#[test]
fn test_history_verify_proof_rejects_mismatch() {
    let poh = ProofOfHistory::new(3);
    let block = Block::new(1, "payload".to_string(), "prev".to_string());
    assert!(!poh.verify_history_proof(&block, "not-a-fixed-point", 1));
    assert!(!poh.verify_history_proof(&block, "anything", 0));
}

#[test]
fn test_capacity_fails_without_plots() {
    let mut poc = ProofOfCapacity::new(1);
    let mut block = Block::new(1, "payload".to_string(), "prev".to_string());
    assert!(poc.execute_consensus(&mut block).is_err());
}

#[test]
fn test_chain_link_invariant_over_appends() {
    let mut blockchain = Blockchain::new_with_consensus(
        ConsensusType::ProofOfWork { difficulty: 1 },
    )
    .unwrap();
    for i in 0..3 {
        blockchain.add_block(format!("tx {}", i)).unwrap();
    }
    for i in 1..blockchain.blocks.len() {
        assert_eq!(
            blockchain.blocks[i].previous_hash,
            blockchain.blocks[i - 1].hash
        );
        assert_eq!(blockchain.blocks[i].index as usize, i);
    }
}
