use community_web::rds_mutate::{save_user_reduced_rds, token_key, user_reduced_key, user_token_key, KvCommand};
use community_web::user_mutate::UserReduced;
use community_web::utils::snowflake::{snowflake_id_value, EPOCH_OFFSET};
use community_web::utils::text::i32_to_decimal;
use community_web::utils::tlv::{decode, encode, REPLY_TYPE};

#[test]
fn snowflake_fields_read_back() {
    let id = snowflake_id_value(EPOCH_OFFSET + 123456, 777, 3000) as u64;
    assert_eq!(id & 0xfff, 3000);
    assert_eq!((id >> 12) & 0x3ff, 777);
    assert_eq!(id >> 22, 123456);
}

#[test]
fn snowflake_ids_distinct_by_sequence_and_node() {
    let t = EPOCH_OFFSET + 5;
    assert_ne!(snowflake_id_value(t, 1, 1), snowflake_id_value(t, 1, 2));
    assert_ne!(snowflake_id_value(t, 1, 1), snowflake_id_value(t, 2, 1));
    // equal in the low bits: the same id
    assert_eq!(snowflake_id_value(t, 1, 1), snowflake_id_value(t, 1025, 4097));
}

#[test]
fn log_of_frames_reads_back_all_values() {
    let values: Vec<Vec<u8>> = vec![vec![], b"a".to_vec(), vec![1; 300], b"zz".to_vec()];
    let mut log = Vec::new();
    for v in &values {
        log.extend_from_slice(&encode(REPLY_TYPE, v));
    }
    assert_eq!(decode(&log, REPLY_TYPE), Ok(values));
}

#[test]
fn key_families_are_disjoint() {
    let a = user_reduced_key(1);
    let b = user_token_key("1");
    let c = token_key("1");
    assert!(a != b && a != c && b != c);
    assert_ne!(user_reduced_key(12), user_reduced_key(-12));
    assert_ne!(user_reduced_key(1), user_reduced_key(10));
}

#[test]
fn decimal_distinct() {
    assert_ne!(i32_to_decimal(10), i32_to_decimal(1));
    assert_ne!(i32_to_decimal(-1), i32_to_decimal(1));
}

#[test]
fn cached_user_read_after_write() {
    let mut store = std::collections::HashMap::new();
    store.insert("user_reduced:5".to_string(), "old".to_string());
    let u = UserReduced { id: 5, name: "n".to_string() };
    if let KvCommand::SetEx { key, value, .. } = save_user_reduced_rds(&u, "new".to_string(), None) {
        store.insert(key, value);
    }
    assert_eq!(store.get(&user_reduced_key(5)).map(|s| s.as_str()), Some("new"));
}
