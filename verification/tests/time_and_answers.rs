use community_web::rds_mutate::{get_user_reduced_from_rds, CachedUserRead};
use community_web::status::ApiStatus;
use community_web::threads::{create_thread_answer, new_thread_row, NewThread};
use community_web::user_mutate::UserReduced;
use community_web::utils::time::{get_current_time, time_from_unix, MAX_TIMESTAMP_SECS};

#[test]
fn time_from_reading() {
    assert_eq!(time_from_unix(None), None);
    let t = time_from_unix(Some((1431648000, 0))).unwrap();
    assert_eq!(t.to_string(), "2015-05-15 00:00:00");
    assert!(time_from_unix(Some((0, 999_999_999))).is_some());
    assert!(time_from_unix(Some((0, 1_000_000_000))).is_none());
    assert!(time_from_unix(Some((MAX_TIMESTAMP_SECS, 0))).is_some());
    assert!(time_from_unix(Some((MAX_TIMESTAMP_SECS + 1, 0))).is_none());
    assert!(time_from_unix(Some((u64::MAX, 0))).is_none());
}

#[test]
fn chrono_range_matches_the_stated_bound() {
    assert!(chrono::DateTime::from_timestamp(MAX_TIMESTAMP_SECS as i64, 999_999_999).is_some());
    assert!(chrono::DateTime::from_timestamp(MAX_TIMESTAMP_SECS as i64 + 1, 0).is_none());
}

#[test]
fn current_time_is_present() {
    assert!(get_current_time().is_some());
}

#[test]
fn created_thread_answer() {
    let t = NewThread { title: "Thread Title".to_string(), content: "Thread Content".to_string(), room_id: 123 };
    let row = new_thread_row(&t, 4).ok().unwrap();
    let a = create_thread_answer(1, row);
    assert_eq!((a.id, a.title.as_str(), a.content.as_str(), a.room_id), (1, "Thread Title", "Thread Content", 123));
    assert!(a.data.is_empty());
}

#[test]
fn cached_user_read() {
    assert!(matches!(get_user_reduced_from_rds(CachedUserRead::Missing), Ok(None)));
    assert!(matches!(get_user_reduced_from_rds(CachedUserRead::Unreadable), Err(ApiStatus::InternalServerError)));
    let u = UserReduced { id: 123, name: "Test User".to_string() };
    match get_user_reduced_from_rds(CachedUserRead::Parsed(u)) {
        Ok(Some(v)) => assert_eq!((v.id, v.name.as_str()), (123, "Test User")),
        _ => panic!("expected the user"),
    }
}
