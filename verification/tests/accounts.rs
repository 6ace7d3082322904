use community_web::email::verification_url;
use community_web::status::ApiStatus;
use community_web::user_login::{self, smtp_settings, start_email_verification, verification_email_body, verification_sent_response, EmailVerificationRequest};
use community_web::user_mutate::{email_verified_page, find_or_add_user_hash, get_user_reduced, get_user_reduced_from_db, new_user_admission, record_user_hash, registration_request, user_hash_seed, user_registor, user_verify_email, verify_credentials, CurrentUser, LoginData, NewCurrentUser, UserHashStep, UserReduced, UserReducedSource, VerificationTokens};
use community_web::rds_mutate::KvCommand;

fn user(id: i32, email: &str, password: &str) -> CurrentUser {
    CurrentUser {
        id,
        name: format!("user{}", id),
        email: email.to_string(),
        password: password.to_string(),
        created_at: chrono::NaiveDateTime::default(),
    }
}

fn new_user(name: &str) -> NewCurrentUser {
    NewCurrentUser { name: name.to_string(), email: format!("{}@x.org", name), password: "pw".to_string() }
}

#[test]
fn credentials() {
    let u = user(7, "a@b.c", "secret");
    assert_eq!(verify_credentials(Some(&u), &"secret".to_string()), Ok(7));
    assert_eq!(verify_credentials(Some(&u), &"wrong".to_string()), Err(ApiStatus::Unauthorized));
    assert_eq!(verify_credentials(None, &"secret".to_string()), Err(ApiStatus::Unauthorized));
}

#[test]
fn hash_seed_and_steps() {
    assert_eq!(user_hash_seed(42), "econ_42");
    match find_or_add_user_hash(42, Some("abc".to_string())) {
        UserHashStep::Found(h) => assert_eq!(h, "abc"),
        _ => panic!("expected Found"),
    }
    match find_or_add_user_hash(42, None) {
        UserHashStep::Create { seed } => assert_eq!(seed, "econ_42"),
        _ => panic!("expected Create"),
    }
}

#[test]
fn recorded_hash_resolves_to_user() {
    let cmds = record_user_hash(42, "h1");
    let mut token_value = None;
    for c in &cmds {
        if let KvCommand::SetEx { key, value, seconds } = c {
            assert_eq!(*seconds, 86400);
            if key == "token:h1" {
                token_value = Some(value.clone());
            } else {
                assert_eq!(key, "user:42:token");
                assert_eq!(value, "h1");
            }
        }
    }
    assert_eq!(community_web::threads::resolve_user_id(token_value), Ok(42));
}

#[test]
fn admission() {
    let u = user(1, "a@b.c", "p");
    assert_eq!(new_user_admission(Some(&u)), Err(ApiStatus::BadRequest));
    assert_eq!(new_user_admission(None), Ok(()));
}

#[test]
fn reduced_user() {
    let r = get_user_reduced_from_db(Some(user(3, "a", "b"))).ok().unwrap();
    assert_eq!(r.id, 3);
    assert_eq!(r.name, "user3");
    assert!(matches!(get_user_reduced_from_db(None), Err(ApiStatus::NotFound)));
    let u: UserReduced = UserReduced::from(user(9, "e", "p"));
    assert_eq!((u.id, u.name.as_str()), (9, "user9"));
    match get_user_reduced(Some(UserReduced { id: 1, name: "n".to_string() })) {
        UserReducedSource::Cache(v) => assert_eq!(v.id, 1),
        _ => panic!("expected Cache"),
    }
    assert!(matches!(get_user_reduced(None), UserReducedSource::Database));
}

#[test]
fn login_data_clone() {
    let d = LoginData { email: "e".to_string(), password: "p".to_string() };
    let c = d.clone();
    assert_eq!((c.email, c.password), (d.email, d.password));
}

#[test]
fn register_then_verify_once() {
    let mut store = VerificationTokens::new();
    assert_eq!(user_registor(&mut store, "t1".to_string(), new_user("ann"), true), ApiStatus::Success);
    let got = user_verify_email(&mut store, "t1").ok().unwrap();
    assert_eq!(got.name, "ann");
    assert_eq!(got.email, "ann@x.org");
    assert!(matches!(user_verify_email(&mut store, "t1"), Err(ApiStatus::NotFound)));
}

#[test]
fn failed_mail_keeps_nothing() {
    let mut store = VerificationTokens::new();
    assert_eq!(user_registor(&mut store, "t2".to_string(), new_user("bob"), false), ApiStatus::InternalServerError);
    assert!(matches!(user_verify_email(&mut store, "t2"), Err(ApiStatus::NotFound)));
}

#[test]
fn unknown_token_not_found() {
    let mut store = VerificationTokens::new();
    assert!(matches!(user_verify_email(&mut store, "nope"), Err(ApiStatus::NotFound)));
}

#[test]
fn registration_request_carries_token() {
    let r = registration_request(&new_user("cy"), &"tok".to_string());
    assert_eq!((r.name.as_str(), r.email.as_str(), r.password.as_str(), r.token.as_str()), ("cy", "cy@x.org", "pw", "tok"));
}

#[test]
fn verification_links() {
    assert_eq!(verification_url(None, "abc"), "http://localhost:8000/api/verify-email/abc");
    assert_eq!(verification_url(Some("https://x.io".to_string()), "t"), "https://x.io/api/verify-email/t");
}

#[test]
fn pages() {
    assert!(email_verified_page().contains("<h2>Email Verified</h2>"));
    let body = verification_email_body("http://h/v/1");
    assert!(body.contains("<p><a href=\"http://h/v/1\">Verify Email</a></p>"));
    assert!(body.starts_with("\n            <html>"));
    assert_eq!(verification_sent_response().message, "Verification email sent. Please check your inbox.");
}

#[test]
fn email_verification_flow() {
    let mut store = VerificationTokens::new();
    let req = EmailVerificationRequest { name: "dee".to_string(), email: "d@e.f".to_string(), password: "pw".to_string() };
    let token = start_email_verification(&mut store, &req);
    assert_eq!(token.len(), 36);
    let u = user_login::verify_email(&mut store, &token).ok().unwrap();
    assert_eq!(u.email, "d@e.f");
    assert!(matches!(user_login::verify_email(&mut store, &token), Err(ApiStatus::NotFound)));
}

#[test]
fn smtp_defaults() {
    let s = smtp_settings(None, None, "me@x".to_string(), "pw".to_string(), None);
    assert_eq!((s.server.as_str(), s.port, s.from_email.as_str()), ("smtp.gmail.com", 587, "me@x"));
    let s = smtp_settings(Some("mail.x".to_string()), Some("2525".to_string()), "me".to_string(), "pw".to_string(), Some("from@x".to_string()));
    assert_eq!((s.server.as_str(), s.port, s.from_email.as_str()), ("mail.x", 2525, "from@x"));
    let s = smtp_settings(None, Some("bad".to_string()), "me".to_string(), "pw".to_string(), None);
    assert_eq!(s.port, 587);
}

#[test]
fn token_login() {
    let u = user(5, "e", "pw");
    let r = user_login::user_login(Some(&u), &"pw".to_string()).ok().unwrap();
    assert_eq!(r.token.len(), 36);
    assert!(matches!(user_login::user_login(Some(&u), &"x".to_string()), Err(ApiStatus::Unauthorized)));
    assert!(matches!(user_login::user_login(None, &"pw".to_string()), Err(ApiStatus::Unauthorized)));
}
