use blockchain_core::{Block, PracticalByzantineFaultTolerance, ProofOfAuthority};

fn three_authorities() -> ProofOfAuthority {
    ProofOfAuthority::new(vec![
        "alice".to_string(),
        "bob".to_string(),
        "charlie".to_string(),
    ])
}

#[test]
fn test_authority_rotation_is_cyclic() {
    let mut poa = three_authorities();
    let mut seen: Vec<u64> = Vec::new();
    for i in 0..6u64 {
        let mut block = Block::new(i, format!("payload {}", i), "prev".to_string());
        let result = poa.execute_consensus(&mut block).unwrap();
        seen.push(result.block.nonce);
    }
    assert_eq!(seen, vec![0, 1, 2, 0, 1, 2]);
}

#[test]
fn test_authority_execute_then_validate() {
    let mut poa = three_authorities();
    let mut block = Block::new(1, "payload".to_string(), "prev".to_string());
    poa.execute_consensus(&mut block).unwrap();
    assert!(poa.validate_block(&block));
    assert!(poa.validate_authority_signature(&block, &block.hash));
    assert!(!poa.validate_authority_signature(&block, "bogus"));
}

#[test]
fn test_add_duplicate_authority_rejected() {
    let mut poa = three_authorities();
    assert!(poa.add_authority("bob".to_string(), "key".to_string()).is_err());
    assert!(poa.add_authority("dave".to_string(), "key".to_string()).is_ok());
    assert_eq!(poa.authorities.len(), 4);
}

#[test]
fn test_remove_last_authority_rejected() {
    let mut poa = ProofOfAuthority::new(vec!["solo".to_string()]);
    let result = poa.remove_authority("solo");
    assert!(result.is_err());
    // the list is unchanged and the authority still signs
    assert_eq!(poa.authorities.len(), 1);
    let mut block = Block::new(1, "payload".to_string(), "prev".to_string());
    assert!(poa.execute_consensus(&mut block).is_ok());
}

#[test]
fn test_remove_unknown_authority_rejected() {
    let mut poa = three_authorities();
    assert!(poa.remove_authority("nobody").is_err());
    assert_eq!(poa.authorities.len(), 3);
    assert!(poa.remove_authority("bob").is_ok());
    assert_eq!(poa.authorities.len(), 2);
}

#[test]
fn test_pbft_succeeds_with_all_nodes_honest() {
    let mut pbft = PracticalByzantineFaultTolerance::new(7, 300);
    let mut block = Block::new(1, "payload".to_string(), "prev".to_string());
    let result = pbft.execute_consensus(&mut block).unwrap();
    assert_eq!(result.block.nonce, 0); // the first sequence number
    assert_eq!(
        result.proof_data.get("honest_nodes").unwrap().as_str(),
        "7"
    );
    assert!(pbft.validate_block(&block));
}

#[test]
fn test_pbft_rejects_excess_faults_and_keeps_set() {
    let mut pbft = PracticalByzantineFaultTolerance::new(7, 300);
    // floor(7 * 0.3) = 2, so three faulty nodes are too many
    assert!(pbft.set_faulty_nodes(vec![1, 2, 3]).is_err());
    assert!(pbft.nodes.iter().all(|n| !n.is_faulty));
    // two faults are allowed, and the round still reaches agreement
    assert!(pbft.set_faulty_nodes(vec![1, 2]).is_ok());
    assert!(pbft.nodes[1].is_faulty && pbft.nodes[2].is_faulty);
    assert!(!pbft.nodes[0].is_faulty);
    let mut block = Block::new(1, "payload".to_string(), "prev".to_string());
    assert!(pbft.execute_consensus(&mut block).is_ok());
}

#[test]
fn test_pbft_statistics_track_counters() {
    let mut pbft = PracticalByzantineFaultTolerance::new(4, 250);
    let mut block = Block::new(1, "payload".to_string(), "prev".to_string());
    pbft.execute_consensus(&mut block).unwrap();
    let stats = pbft.get_statistics();
    assert_eq!(stats.get("total_nodes").unwrap().as_str(), "4");
    assert_eq!(stats.get("honest_nodes").unwrap().as_str(), "4");
    assert_eq!(stats.get("current_sequence").unwrap().as_str(), "1");
    // one pre-prepare, three prepares, four commits
    assert_eq!(stats.get("total_messages").unwrap().as_str(), "8");
}

#[test]
fn test_pbft_fails_below_honest_threshold() {
    let mut pbft = PracticalByzantineFaultTolerance::new(3, 600);
    // one fault leaves two honest nodes, below 2*3/3 + 1 = 3
    assert!(pbft.set_faulty_nodes(vec![1]).is_ok());
    let mut block = Block::new(1, "payload".to_string(), "prev".to_string());
    assert!(pbft.execute_consensus(&mut block).is_err());
}
