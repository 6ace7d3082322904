use community_web::google_scholar::{scholar_profile, BibNoFilled, GoogleScholar};
use community_web::status::ApiStatus;
use community_web::threads::{comment_step, new_thread_row, start_comment, CommentAction, CommentEvent, CommentStage, NewReply, NewThread, Reply};
use community_web::utils::snowflake::{snowflake_from_parts, EPOCH_OFFSET};

fn request(parent: Option<&str>) -> NewReply {
    NewReply { thread_id: 7, parent_id: parent.map(|p| p.to_string()), content: "hello".to_string() }
}

fn reply(id: &str) -> Reply {
    Reply { id: id.to_string(), parent_id: None, content: String::new(), time: chrono::NaiveDateTime::default() }
}

fn finish(r: (CommentStage, CommentAction)) -> ApiStatus {
    match r {
        (CommentStage::Done, CommentAction::Finish(s)) => s,
        _ => panic!("expected Finish"),
    }
}

#[test]
fn comment_flow_top_level() {
    let req = request(None);
    let mut seq = 3u16;
    let (stage, action) = start_comment("hash");
    assert!(matches!(&action, CommentAction::LookupSession(h) if h == "hash"));
    let (stage, action) = comment_step(stage, &req, CommentEvent::Session(Some("12".to_string())), 1, &mut seq);
    assert!(matches!(action, CommentAction::CheckUser(12)));
    let (stage, action) = comment_step(stage, &req, CommentEvent::UserExists(true), 1, &mut seq);
    assert!(matches!(action, CommentAction::CheckThread(7)));
    assert_eq!(seq, 3);
    let (stage, action) = comment_step(stage, &req, CommentEvent::ThreadExists(true), 1, &mut seq);
    assert_eq!(seq, 4);
    match &action {
        CommentAction::Append { thread_id, reply } => {
            assert_eq!(*thread_id, 7);
            assert_eq!(reply.content, "hello");
            assert!(reply.parent_id.is_none());
            assert_eq!(reply.id.len(), 12);
        }
        _ => panic!("expected Append"),
    }
    assert_eq!(finish(comment_step(stage, &req, CommentEvent::Written(true), 1, &mut seq)), ApiStatus::Created);
}

#[test]
fn comment_flow_refusals() {
    let req = request(Some("p1"));
    let mut seq = 0u16;
    assert_eq!(finish(comment_step(CommentStage::AwaitSession, &req, CommentEvent::Session(None), 1, &mut seq)), ApiStatus::Unauthorized);
    assert_eq!(
        finish(comment_step(CommentStage::AwaitSession, &req, CommentEvent::Session(Some("x".to_string())), 1, &mut seq)),
        ApiStatus::InternalServerError
    );
    assert_eq!(finish(comment_step(CommentStage::AwaitUser, &req, CommentEvent::UserExists(false), 1, &mut seq)), ApiStatus::NotFound);
    assert_eq!(finish(comment_step(CommentStage::AwaitThread, &req, CommentEvent::ThreadExists(false), 1, &mut seq)), ApiStatus::NotFound);
    let (_, action) = comment_step(CommentStage::AwaitThread, &req, CommentEvent::ThreadExists(true), 1, &mut seq);
    assert!(matches!(action, CommentAction::LoadReplies(7)));
    assert_eq!(finish(comment_step(CommentStage::AwaitReplies, &req, CommentEvent::Replies(None), 1, &mut seq)), ApiStatus::InternalServerError);
    assert_eq!(
        finish(comment_step(CommentStage::AwaitReplies, &req, CommentEvent::Replies(Some(vec![reply("q")])), 1, &mut seq)),
        ApiStatus::NotFound
    );
    assert_eq!(seq, 0);
    let (_, action) = comment_step(CommentStage::AwaitReplies, &req, CommentEvent::Replies(Some(vec![reply("q"), reply("p1")])), 1, &mut seq);
    assert!(matches!(&action, CommentAction::Append { reply, .. } if reply.parent_id.as_deref() == Some("p1")));
    assert_eq!(seq, 1);
    assert_eq!(finish(comment_step(CommentStage::AwaitWrite, &req, CommentEvent::Written(false), 1, &mut seq)), ApiStatus::InternalServerError);
    assert_eq!(finish(comment_step(CommentStage::Done, &req, CommentEvent::Written(true), 1, &mut seq)), ApiStatus::InternalServerError);
}

#[test]
fn thread_row() {
    let t = NewThread { title: "T".to_string(), content: "C".to_string(), room_id: 123 };
    let row = new_thread_row(&t, 9).ok().unwrap();
    assert_eq!((row.title.as_str(), row.content.as_str(), row.room_id, row.user_id), ("T", "C", 123, 9));
    assert!(row.reply_data.is_empty());
}

#[test]
fn scholar_profile_or_not_found() {
    assert!(matches!(scholar_profile(None), Err(ApiStatus::NotFound)));
    let g = GoogleScholar {
        affiliation: String::new(),
        citedby: 1,
        container_type: String::new(),
        coauthors: vec![],
        email_domain: String::new(),
        filled: vec![],
        interests: vec![],
        name: "N".to_string(),
        organization: 0,
        publications: vec![],
        scholar_id: "s".to_string(),
        source: String::new(),
    };
    let _ = BibNoFilled { citation: String::new(), pub_year: String::new(), title: String::new() };
    assert_eq!(scholar_profile(Some(g)).ok().unwrap().name, "N");
}

#[test]
fn ids_distinct_over_fewer_than_4096_calls() {
    let base = snowflake_from_parts(EPOCH_OFFSET + 10, 1, 65530);
    for k in 1u32..4096 {
        let later = ((65530u32 + k) % 65536) as u16;
        assert_ne!(snowflake_from_parts(EPOCH_OFFSET + 10, 1, later), base);
        assert_ne!(snowflake_from_parts(EPOCH_OFFSET + 99, 2, later), base);
    }
    assert!(base.ends_with('='));
    assert_eq!(snowflake_from_parts(EPOCH_OFFSET + 10, 1, (65530u32 + 4096 - 65536) as u16), base);
}
