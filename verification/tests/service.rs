use community_web::comm_type::CommInWrapper;
use community_web::index;
use community_web::status::ApiStatus;
use community_web::utils::rds_conn::{configure_redis_lru, lru_config_enabled, set_config};

#[test]
fn root_route() {
    assert_eq!(index(), "Community Web API");
}

#[test]
fn wrapper_getters() {
    let w = CommInWrapper { data: 5u8, user_hash: "h".to_string() };
    assert_eq!(w.get_user_hash(), "h");
    assert_eq!(*w.get_data(), 5);
}

#[test]
fn status_codes() {
    let all = [
        (ApiStatus::Success, 200),
        (ApiStatus::Created, 201),
        (ApiStatus::BadRequest, 400),
        (ApiStatus::Unauthorized, 401),
        (ApiStatus::NotFound, 404),
        (ApiStatus::InternalServerError, 500),
        (ApiStatus::ServiceUnavailable, 503),
    ];
    for (s, c) in all {
        assert_eq!(s.code(), c);
    }
}

#[test]
fn lru_settings() {
    let d = configure_redis_lru(None, None, None);
    assert_eq!(
        d,
        vec![
            ("maxmemory".to_string(), "256mb".to_string()),
            ("maxmemory-policy".to_string(), "allkeys-lru".to_string()),
            ("maxmemory-samples".to_string(), "5".to_string()),
        ]
    );
    let c = configure_redis_lru(Some("1gb".to_string()), Some("volatile-lru".to_string()), Some("10".to_string()));
    assert_eq!(c[0].1, "1gb");
    assert_eq!(c[1].1, "volatile-lru");
    assert_eq!(c[2].1, "10");
    assert_eq!(set_config("maxmemory", "1gb"), vec!["SET", "maxmemory", "1gb"]);
    assert!(lru_config_enabled(Some("true".to_string())));
    assert!(!lru_config_enabled(Some("TRUE".to_string())));
    assert!(!lru_config_enabled(None));
}
