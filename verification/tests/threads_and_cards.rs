use community_web::google_scholar::{author_url, publication_url, scholar_update_step, BibNoFilled, CardLookup, GoogleScholar, GoogleScholarPubListed, PublicationNoFilled, ScholarUpdate};
use community_web::models::{Reply as NumReply, ReplyComm};
use community_web::researcher_card::{card_thread_request, require_card, whether_card_is_exist, NewResearcherCard, ResearcherCard, ResearcherCardComm};
use community_web::researcher_card_threads::{create_researcher_card_thread, get_researcher_card_thread_ids, whether_researcher_card_thread_is_exist, NewResearcherCardThread, ResearcherCardThread, ResearcherCardThreadWithRepliesComm};
use community_web::status::ApiStatus;
use community_web::threads::{build_reply, check_parent, decode_replies, get_thread, list_threads_ids, parent_reply_exists, reply_frame, reply_log_values, require_found, resolve_user_id, NewReply, Reply, Thread};
use community_web::utils::tlv::encode;

fn t0() -> chrono::NaiveDateTime {
    chrono::NaiveDateTime::default()
}

fn reply(id: &str) -> Reply {
    Reply { id: id.to_string(), parent_id: None, content: format!("c{}", id), time: t0() }
}

fn thread(id: i32, data: Vec<u8>) -> Thread {
    Thread { id, title: format!("t{}", id), content: "body".to_string(), time: t0(), reply_data: data, room_id: 3 }
}

#[test]
fn user_resolution() {
    assert_eq!(resolve_user_id(None), Err(ApiStatus::Unauthorized));
    assert_eq!(resolve_user_id(Some("17".to_string())), Ok(17));
    assert_eq!(resolve_user_id(Some("x17".to_string())), Err(ApiStatus::InternalServerError));
    assert_eq!(require_found(true), Ok(()));
    assert_eq!(require_found(false), Err(ApiStatus::NotFound));
}

#[test]
fn reply_log() {
    assert!(reply_log_values(&[]).is_empty());
    let mut log = reply_frame(b"a");
    log.extend_from_slice(&reply_frame(b"bc"));
    assert_eq!(reply_log_values(&log), vec![b"a".to_vec(), b"bc".to_vec()]);
    assert!(reply_log_values(&[1, 0, 0, 0, 9]).is_empty());
    assert_eq!(reply_frame(b"xy"), encode(1, b"xy"));
}

#[test]
fn replies_all_or_nothing() {
    assert_eq!(decode_replies(vec![Some(reply("1")), Some(reply("2"))]).len(), 2);
    assert!(decode_replies(vec![Some(reply("1")), None]).is_empty());
}

#[test]
fn parents() {
    let rs = vec![reply("a"), reply("b")];
    assert!(parent_reply_exists(&rs, &"b".to_string()));
    assert!(!parent_reply_exists(&rs, &"c".to_string()));
    assert_eq!(check_parent(&None, &vec![]), Ok(()));
    assert_eq!(check_parent(&Some("a".to_string()), &rs), Ok(()));
    assert_eq!(check_parent(&Some("z".to_string()), &rs), Err(ApiStatus::NotFound));
}

#[test]
fn new_reply_from_request() {
    let req = NewReply { thread_id: 1, parent_id: Some("p".to_string()), content: "hi".to_string() };
    let mut seq = 10u16;
    let r = build_reply(&req, 1, &mut seq).ok().unwrap();
    assert_eq!(seq, 11);
    assert_eq!(r.parent_id.as_deref(), Some("p"));
    assert_eq!(r.content, "hi");
    assert_eq!(r.id.len(), 12);
}

#[test]
fn thread_views() {
    let ts = vec![thread(4, vec![]), thread(2, vec![]), thread(9, vec![])];
    assert_eq!(list_threads_ids(&ts), vec![4, 2, 9]);
    let t = get_thread(thread(5, vec![]), vec![reply("x")]);
    assert_eq!((t.id, t.title.as_str(), t.replies.len()), (5, "t5", 1));
}

#[test]
fn reply_comm_ids_are_decimal() {
    let r = NumReply { id: 1234567890123, parent_id: Some(-5), content: "c".to_string(), time: t0() };
    let c = ReplyComm::from_reply(r);
    assert_eq!(c.id, "1234567890123");
    assert_eq!(c.parent_id.as_deref(), Some("-5"));
    let list = ReplyComm::from_replies(vec![
        NumReply { id: 1, parent_id: None, content: "a".to_string(), time: t0() },
        NumReply { id: 2, parent_id: Some(1), content: "b".to_string(), time: t0() },
    ]);
    assert_eq!(list.iter().map(|c| c.id.as_str()).collect::<Vec<_>>(), vec!["1", "2"]);
    assert_eq!(list[1].parent_id.as_deref(), Some("1"));
    assert!(list[0].parent_id.is_none());
}

fn card(id: i32) -> ResearcherCard {
    ResearcherCard {
        id,
        affiliation: "Uni".to_string(),
        name: "R".to_string(),
        citedby: 100,
        co_authors: vec!["x".to_string()],
        email_domain: "uni.edu".to_string(),
        interests: vec!["AI".to_string()],
        google_scholar_publication_ids: vec!["p1".to_string()],
        google_scholar_id: "gs".to_string(),
    }
}

#[test]
fn card_conversions() {
    let c = ResearcherCardComm::from_researcher_card(card(1), 77);
    assert_eq!((c.id, c.researcher_card_thread_id, c.citedby), (1, 77, 100));
    assert_eq!(c.google_scholar_publication_ids, vec!["p1".to_string()]);
    assert_eq!(whether_card_is_exist(true), Ok(true));
    assert_eq!(whether_card_is_exist(false), Err(ApiStatus::InternalServerError));
    assert_eq!(require_card(Ok(true)), Ok(()));
    assert_eq!(require_card(Ok(false)), Err(ApiStatus::NotFound));
    assert_eq!(require_card(Err(ApiStatus::InternalServerError)), Err(ApiStatus::InternalServerError));
    let t = card_thread_request(5).ok().unwrap();
    assert_eq!((t.title.as_str(), t.content.as_str(), t.researcher_id), ("", "", 5));
}

fn scholar() -> GoogleScholar {
    let publication = |id: &str| PublicationNoFilled {
        author_pub_id: id.to_string(),
        bib: BibNoFilled { citation: String::new(), pub_year: "2023".to_string(), title: "T".to_string() },
        citedby_url: String::new(),
        cites_id: vec![],
        container_type: String::new(),
        filled: false,
        num_citations: 3,
        source: String::new(),
    };
    GoogleScholar {
        affiliation: "Uni".to_string(),
        citedby: 1000,
        container_type: "Author".to_string(),
        coauthors: vec!["co".to_string()],
        email_domain: "uni.edu".to_string(),
        filled: vec![],
        interests: vec!["ML".to_string()],
        name: "Scholar".to_string(),
        organization: 12345,
        publications: vec![publication("p1"), publication("p2"), publication("p3")],
        scholar_id: "s123".to_string(),
        source: "src".to_string(),
    }
}

#[test]
fn scholar_to_card() {
    let listed = GoogleScholarPubListed::from_google_scholar(scholar());
    assert_eq!(listed.publications, vec!["p1", "p2", "p3"]);
    assert_eq!(listed.google_scholar_id, "s123");
    let nc = NewResearcherCard::from_google_scholar_pub_listed(listed);
    assert_eq!(nc.google_scholar_publication_ids, vec!["p1", "p2", "p3"]);
    assert_eq!(nc.co_authors, vec!["co"]);
    assert_eq!((nc.citedby, nc.name.as_str()), (1000, "Scholar"));
}

#[test]
fn scholar_urls_and_steps() {
    assert_eq!(author_url("http://api", "s1"), "http://api/author/s1");
    assert_eq!(publication_url("http://api", "s1", "p9"), "http://api/author/s1/publication/p9");
    assert!(matches!(scholar_update_step(CardLookup::Found(4)), Ok(ScholarUpdate::UpdateExisting(4))));
    assert!(matches!(scholar_update_step(CardLookup::Missing), Ok(ScholarUpdate::CreateNew)));
    assert!(matches!(scholar_update_step(CardLookup::Failed), Err(ApiStatus::InternalServerError)));
}

fn card_thread(id: i32, researcher_id: i32) -> ResearcherCardThread {
    ResearcherCardThread { id, title: "x".to_string(), content: "y".to_string(), time: t0(), reply_data: vec![], researcher_id }
}

#[test]
fn card_threads() {
    let req = || NewResearcherCardThread { title: "a".to_string(), content: "b".to_string(), researcher_id: 3, time: t0() };
    assert!(matches!(create_researcher_card_thread(req(), false, false), Err(ApiStatus::InternalServerError)));
    assert!(matches!(create_researcher_card_thread(req(), true, true), Err(ApiStatus::BadRequest)));
    let ok = create_researcher_card_thread(req(), true, false).ok().unwrap();
    assert_eq!((ok.title.as_str(), ok.researcher_id), ("a", 3));
    assert_eq!(whether_researcher_card_thread_is_exist(true), Ok(true));
    assert_eq!(whether_researcher_card_thread_is_exist(false), Err(ApiStatus::InternalServerError));
    assert_eq!(get_researcher_card_thread_ids(&vec![card_thread(8, 1), card_thread(3, 2)]), vec![8, 3]);
}

#[test]
fn card_thread_with_replies() {
    let th = card_thread(2, 6);
    let replies = vec![Some(NumReply { id: 10, parent_id: None, content: "q".to_string(), time: t0() })];
    let w = ResearcherCardThreadWithRepliesComm::from_database_thread(&th, replies);
    assert_eq!((w.id, w.researcher_id, w.replies.len()), (2, 6, 1));
    assert_eq!(w.replies[0].id, "10");
    let w2 = ResearcherCardThreadWithRepliesComm::from_database_thread(&th, vec![None]);
    assert!(w2.replies.is_empty());
}
