use community_web::rds_mutate::{refresh_user_reduced_ttl, remove_user_token, save_user_reduced_rds, save_user_reduced_with_default_ttl, store_user_token, token_key, user_reduced_key, user_token_key, KvCommand};
use community_web::status::ApiStatus;
use community_web::user_mutate::UserReduced;
use std::collections::HashMap;

fn apply(store: &mut HashMap<String, String>, cmds: Vec<KvCommand>) {
    for c in cmds {
        match c {
            KvCommand::SetEx { key, value, .. } => {
                store.insert(key, value);
            }
            KvCommand::Del { key } => {
                store.remove(&key);
            }
            KvCommand::Expire { .. } => {}
        }
    }
}

#[test]
fn keys() {
    assert_eq!(user_reduced_key(42), "user_reduced:42");
    assert_eq!(user_reduced_key(-7), "user_reduced:-7");
    assert_eq!(user_token_key("12"), "user:12:token");
    assert_eq!(token_key("abc"), "token:abc");
}

#[test]
fn store_user_token_writes_both_ways() {
    let cmds = store_user_token("12", "tok", None);
    assert_eq!(cmds.len(), 2);
    match &cmds[0] {
        KvCommand::SetEx { key, value, seconds } => {
            assert_eq!(key, "user:12:token");
            assert_eq!(value, "tok");
            assert_eq!(*seconds, 86400);
        }
        _ => panic!("expected SetEx"),
    }
    match &cmds[1] {
        KvCommand::SetEx { key, value, seconds } => {
            assert_eq!(key, "token:tok");
            assert_eq!(value, "12");
            assert_eq!(*seconds, 86400);
        }
        _ => panic!("expected SetEx"),
    }
    match &store_user_token("1", "t", Some(5))[0] {
        KvCommand::SetEx { seconds, .. } => assert_eq!(*seconds, 5),
        _ => panic!("expected SetEx"),
    }
}

#[test]
fn store_then_lookup_then_remove() {
    let mut store = HashMap::new();
    store.insert("token:old".to_string(), "9".to_string());
    apply(&mut store, store_user_token("12", "tok", Some(60)));
    assert_eq!(store.get("token:tok").map(|s| s.as_str()), Some("12"));
    assert_eq!(store.get("user:12:token").map(|s| s.as_str()), Some("tok"));
    let current = store.get("user:12:token").cloned();
    apply(&mut store, remove_user_token("12", current));
    assert!(!store.contains_key("token:tok"));
    assert!(!store.contains_key("user:12:token"));
    assert_eq!(store.get("token:old").map(|s| s.as_str()), Some("9"));
}

#[test]
fn remove_without_token_deletes_user_key_only() {
    let cmds = remove_user_token("3", None);
    assert_eq!(cmds.len(), 1);
    match &cmds[0] {
        KvCommand::Del { key } => assert_eq!(key, "user:3:token"),
        _ => panic!("expected Del"),
    }
}

#[test]
fn refresh_ttl() {
    assert!(matches!(refresh_user_reduced_ttl(5, None, false), Err(ApiStatus::NotFound)));
    match refresh_user_reduced_ttl(5, None, true) {
        Ok(KvCommand::Expire { key, ttl }) => {
            assert_eq!(key, "user_reduced:5");
            assert_eq!(ttl, 604800);
        }
        _ => panic!("expected Expire"),
    }
    match refresh_user_reduced_ttl(5, Some(7200), true) {
        Ok(KvCommand::Expire { ttl, .. }) => assert_eq!(ttl, 7200),
        _ => panic!("expected Expire"),
    }
}

#[test]
fn save_user_reduced() {
    let u = UserReduced { id: 123, name: "Test User".to_string() };
    match save_user_reduced_rds(&u, "{\"id\":123}".to_string(), Some(3600)) {
        KvCommand::SetEx { key, value, seconds } => {
            assert_eq!(key, "user_reduced:123");
            assert_eq!(value, "{\"id\":123}");
            assert_eq!(seconds, 3600);
        }
        _ => panic!("expected SetEx"),
    }
    match save_user_reduced_with_default_ttl(&u, "x".to_string()) {
        KvCommand::SetEx { seconds, .. } => assert_eq!(seconds, 604800),
        _ => panic!("expected SetEx"),
    }
}
