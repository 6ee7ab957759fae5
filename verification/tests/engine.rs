use blockchain_core::{
    new_blockchain, new_blockchain_with_consensus, Blockchain, ConsensusType,
};

#[test]
fn test_blockchain_creation() {
    let blockchain = new_blockchain();
    assert_eq!(blockchain.blocks.len(), 1); // Genesis block
    assert!(blockchain.is_valid());
}

#[test]
fn test_all_consensus_algorithms() {
    let algorithms = vec![
        ConsensusType::ProofOfWork { difficulty: 2 },
        ConsensusType::ProofOfStake { minimum_stake: 100 },
        ConsensusType::ProofOfAuthority {
            validators: vec!["test".to_string()],
        },
        ConsensusType::ProofOfHistory { vdf_iterations: 10 },
        ConsensusType::ProofOfElapsedTime {
            wait_time_config: 10,
        },
        ConsensusType::ProofOfBurn { burn_amount: 10 },
        ConsensusType::ProofOfCapacity {
            storage_requirement: 1,
        },
        ConsensusType::PracticalByzantineFaultTolerance {
            node_count: 4,
            fault_tolerance_millis: 250,
        },
    ];

    for consensus_type in algorithms {
        let result = new_blockchain_with_consensus(consensus_type);
        assert!(
            result.is_ok(),
            "Failed to create blockchain with consensus algorithm"
        );
    }
}

#[test]
fn test_add_block_updates_chain_and_stats() {
    let mut blockchain =
        Blockchain::new_with_consensus(ConsensusType::ProofOfWork { difficulty: 1 }).unwrap();
    let result = blockchain.add_block("Alice pays Bob 10 coins".to_string()).unwrap();
    assert_eq!(blockchain.blocks.len(), 2);
    assert_eq!(blockchain.blocks[1].index, 1);
    assert_eq!(blockchain.blocks[1].data, "Alice pays Bob 10 coins");
    assert_eq!(
        blockchain.blocks[1].previous_hash,
        blockchain.blocks[0].hash
    );
    assert_eq!(result.block.index, 1);
    assert_eq!(blockchain.get_blockchain_stats().total_blocks, 2);
    assert_eq!(blockchain.get_blockchain_stats().consensus_failures, 0);
    assert!(blockchain.is_valid());
}

#[test]
fn test_add_block_failure_is_counted_and_not_appended() {
    // a stake engine with no validators cannot finalize a block
    let mut blockchain =
        Blockchain::new_with_consensus(ConsensusType::ProofOfStake { minimum_stake: 1000 })
            .unwrap();
    let before = blockchain.blocks.len();
    let result = blockchain.add_block("doomed".to_string());
    assert!(result.is_err());
    assert_eq!(blockchain.blocks.len(), before);
    assert_eq!(blockchain.get_blockchain_stats().consensus_failures, 1);
}

#[test]
fn test_switching_invalidates_pre_switch_blocks() {
    let mut blockchain =
        Blockchain::new_with_consensus(ConsensusType::ProofOfWork { difficulty: 1 }).unwrap();
    blockchain.add_block("Test transaction".to_string()).unwrap();
    assert!(blockchain.is_valid());
    blockchain
        .switch_consensus(ConsensusType::ProofOfStake {
            minimum_stake: 1000,
        })
        .unwrap();
    // the work-mined block is now checked against the stake algorithm
    assert!(!blockchain.is_valid());
}

#[test]
fn test_benchmark_runs_fixed_battery() {
    let blockchain = new_blockchain();
    let results = blockchain
        .benchmark_consensus_algorithms(vec!["a".to_string(), "b".to_string()])
        .unwrap();
    assert_eq!(results.len(), 4);
    assert_eq!(results[0].0, "Proof of Work");
    assert_eq!(results[1].0, "Proof of Stake");
    assert_eq!(results[2].0, "Proof of Authority");
    assert_eq!(results[3].0, "Proof of History");
    // the stake rounds all fail (no validators), so its totals stay zero
    assert_eq!(results[1].1, 0);
    assert_eq!(results[1].2, 0);
    // authority and history rounds cost fixed energy per payload
    assert_eq!(results[2].2, 200);
    assert_eq!(results[3].2, 20000);
}

#[test]
fn test_switch_updates_consensus_type() {
    let mut blockchain =
        Blockchain::new_with_consensus(ConsensusType::ProofOfWork { difficulty: 1 }).unwrap();
    assert_eq!(blockchain.consensus_type.name(), "Proof of Work");
    blockchain
        .switch_consensus(ConsensusType::ProofOfHistory { vdf_iterations: 3 })
        .unwrap();
    assert_eq!(blockchain.consensus_type.name(), "Proof of History");
}

#[test]
fn test_consensus_info_names_algorithm() {
    let blockchain =
        Blockchain::new_with_consensus(ConsensusType::ProofOfHistory { vdf_iterations: 5 })
            .unwrap();
    let info = blockchain.get_consensus_info().unwrap();
    assert_eq!(
        info.get("algorithm_name").unwrap().as_str(),
        "Proof of History"
    );
}

#[test]
fn test_adaptive_difficulty_applies_to_work_only() {
    let work = Blockchain::new_with_consensus(ConsensusType::ProofOfWork { difficulty: 1 })
        .unwrap();
    assert_eq!(work.calculate_adaptive_difficulty(), Some(1));
    let history =
        Blockchain::new_with_consensus(ConsensusType::ProofOfHistory { vdf_iterations: 5 })
            .unwrap();
    assert_eq!(history.calculate_adaptive_difficulty(), None);
}

#[test]
fn test_list_consensus_algorithms() {
    let list = blockchain_core::list_consensus_algorithms();
    assert_eq!(list.len(), 8);
    assert_eq!(list[0].0, "Proof of Work");
    assert_eq!(list[7].0, "Practical Byzantine Fault Tolerance");
}
