use blockchain_core::encode::{
    bytes_to_hex, i64_to_dec, parse_dec_u64, parse_dec_usize, str_eq, str_starts_with,
    u128_to_dec, u64_to_dec, u64_to_hex16, usize_to_dec, zeros_string,
};
use blockchain_core::hashing::sha256_hex;
use blockchain_core::{ConsensusConfig, ConsensusType, KvMap};

#[test]
fn test_decimal_text_matches_formatting() {
    for n in [0u64, 7, 10, 99, 1234567890123456789, u64::MAX] {
        assert_eq!(u64_to_dec(n), format!("{}", n));
    }
    for n in [0i64, -1, 42, i64::MIN, i64::MAX] {
        assert_eq!(i64_to_dec(n), format!("{}", n));
    }
    assert_eq!(u128_to_dec(u128::MAX), format!("{}", u128::MAX));
    assert_eq!(usize_to_dec(31usize), "31");
}

#[test]
fn test_hex_text_matches_formatting() {
    for n in [0u64, 1, 0xdead_beef, u64::MAX] {
        assert_eq!(u64_to_hex16(n), format!("{:016x}", n));
    }
    assert_eq!(bytes_to_hex(&vec![0u8, 255, 16]), "00ff10");
}

#[test]
fn test_decimal_parsing() {
    assert_eq!(parse_dec_u64("0"), Some(0));
    assert_eq!(parse_dec_u64("0042"), Some(42));
    assert_eq!(parse_dec_u64("18446744073709551615"), Some(u64::MAX));
    assert_eq!(parse_dec_u64("18446744073709551616"), None);
    assert_eq!(parse_dec_u64(""), None);
    assert_eq!(parse_dec_u64("12a"), None);
    assert_eq!(parse_dec_usize("7"), Some(7));
}

#[test]
fn test_string_helpers() {
    assert!(str_eq("same", "same"));
    assert!(!str_eq("same", "sane"));
    assert!(str_starts_with("prefix and more", "prefix"));
    assert!(!str_starts_with("pre", "prefix"));
    assert_eq!(zeros_string(4), "0000");
}

#[test]
fn test_sha256_hex_matches_known_vector() {
    assert_eq!(
        sha256_hex("abc"),
        "ba7816bf8f01cfea414140de5dae2223b00361a396177a9cb410ff61f20015ad"
    );
    assert_eq!(
        sha256_hex(""),
        "e3b0c44298fc1c149afbf4c8996fb92427ae41e4649b934ca495991b7852b855"
    );
}

#[test]
fn test_kvmap_insert_get_len() {
    let mut map = KvMap::new();
    assert_eq!(map.len(), 0);
    map.insert("a".to_string(), "1".to_string());
    map.insert("b".to_string(), "2".to_string());
    map.insert("a".to_string(), "3".to_string());
    assert_eq!(map.len(), 2);
    assert_eq!(map.get("a").unwrap().as_str(), "3");
    assert_eq!(map.get("b").unwrap().as_str(), "2");
    assert!(map.get("c").is_none());
    assert!(map.contains_key("b"));
    assert_eq!(map.entries().len(), 2);
}

#[test]
fn test_kind_names_and_characteristics() {
    let kind = ConsensusType::PracticalByzantineFaultTolerance {
        node_count: 4,
        fault_tolerance_millis: 250,
    };
    assert_eq!(kind.name(), "Practical Byzantine Fault Tolerance");
    assert!(kind.description().contains("Byzantine"));
    let chars = kind.characteristics();
    assert_eq!(chars.get("security").unwrap().as_str(), "Very High");
    assert_eq!(chars.get("node_count").unwrap().as_str(), "4");
}

#[test]
fn test_configure_parses_and_rejects() {
    let mut pow = blockchain_core::ProofOfWork::new(2);
    let mut params = KvMap::new();
    params.insert("difficulty".to_string(), "5".to_string());
    params.insert("target_time_seconds".to_string(), "30".to_string());
    let config = ConsensusConfig {
        additional_params: params,
    };
    assert!(pow.configure(config).is_ok());
    assert_eq!(pow.difficulty, 5);
    assert_eq!(pow.target_time_secs, 30);

    let mut bad = KvMap::new();
    bad.insert("difficulty".to_string(), "not-a-number".to_string());
    let config = ConsensusConfig {
        additional_params: bad,
    };
    assert!(pow.configure(config).is_err());
    assert_eq!(pow.difficulty, 5);
}

#[test]
fn test_random_below_stays_in_range() {
    for _ in 0..32 {
        assert!(blockchain_core::entropy::random_below(7) < 7);
    }
}

#[test]
fn test_clock_reads_modern_time() {
    let seconds = blockchain_core::clock::now_timestamp();
    assert!(seconds > 1_500_000_000);
    let millis = blockchain_core::clock::now_timestamp_millis();
    assert!(millis > 1_500_000_000_000);
}
