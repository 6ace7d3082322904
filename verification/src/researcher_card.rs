//! Researcher cards: a researcher's profile, each with one discussion thread.
use vstd::prelude::*;
use crate::google_scholar::GoogleScholarPubListed;
use crate::researcher_card_threads::NewResearcherCardThread;
use crate::status::ApiStatus;
use crate::utils::time::get_current_time;

verus! {

/// A researcher card as stored in the database.
pub struct ResearcherCard {
    pub id: i32,
    pub affiliation: String,
    pub name: String,
    pub citedby: i32,
    pub co_authors: Vec<String>,
    pub email_domain: String,
    pub interests: Vec<String>,
    pub google_scholar_publication_ids: Vec<String>,
    pub google_scholar_id: String,
}

/// A researcher card as sent to clients, with the id of its thread.
pub struct ResearcherCardComm {
    pub id: i32,
    pub affiliation: String,
    pub name: String,
    pub citedby: i32,
    pub email_domain: String,
    pub interests: Vec<String>,
    pub google_scholar_publication_ids: Vec<String>,
    pub google_scholar_id: String,
    pub researcher_card_thread_id: i32,
}

/// The fields of a card to create or to overwrite a card with.
pub struct NewResearcherCard {
    pub affiliation: String,
    pub name: String,
    pub co_authors: Vec<String>,
    pub citedby: i32,
    pub email_domain: String,
    pub interests: Vec<String>,
    pub google_scholar_publication_ids: Vec<String>,
    pub google_scholar_id: String,
}

impl ResearcherCardComm {
    /// The outward form of a card whose thread has the id `thread_id`; the
    /// co-authors are not sent.
    pub fn from_researcher_card(researcher_card: ResearcherCard, thread_id: i32) -> (r: Self)
        ensures
            r.id == researcher_card.id,
            r.affiliation == researcher_card.affiliation,
            r.name == researcher_card.name,
            r.citedby == researcher_card.citedby,
            r.email_domain == researcher_card.email_domain,
            r.interests == researcher_card.interests,
            r.google_scholar_publication_ids == researcher_card.google_scholar_publication_ids,
            r.google_scholar_id == researcher_card.google_scholar_id,
            r.researcher_card_thread_id == thread_id,
    {
        ResearcherCardComm {
            id: researcher_card.id,
            affiliation: researcher_card.affiliation,
            name: researcher_card.name,
            citedby: researcher_card.citedby,
            email_domain: researcher_card.email_domain,
            interests: researcher_card.interests,
            google_scholar_publication_ids: researcher_card.google_scholar_publication_ids,
            google_scholar_id: researcher_card.google_scholar_id,
            researcher_card_thread_id: thread_id,
        }
    }
}

impl NewResearcherCard {
    /// The card fields of a scholar profile: its publication ids become the
    /// card's publication ids and its co-authors the card's co-authors.
    pub fn from_google_scholar_pub_listed(google_scholar_pub_listed: GoogleScholarPubListed) -> (r: Self)
        ensures
            r.google_scholar_id == google_scholar_pub_listed.google_scholar_id,
            r.affiliation == google_scholar_pub_listed.affiliation,
            r.name == google_scholar_pub_listed.name,
            r.co_authors == google_scholar_pub_listed.coauthors,
            r.citedby == google_scholar_pub_listed.citedby,
            r.email_domain == google_scholar_pub_listed.email_domain,
            r.interests == google_scholar_pub_listed.interests,
            r.google_scholar_publication_ids == google_scholar_pub_listed.publications,
    {
        NewResearcherCard {
            google_scholar_id: google_scholar_pub_listed.google_scholar_id,
            affiliation: google_scholar_pub_listed.affiliation,
            name: google_scholar_pub_listed.name,
            co_authors: google_scholar_pub_listed.coauthors,
            citedby: google_scholar_pub_listed.citedby,
            email_domain: google_scholar_pub_listed.email_domain,
            interests: google_scholar_pub_listed.interests,
            google_scholar_publication_ids: google_scholar_pub_listed.publications,
        }
    }
}

/// The outcome of looking a card up by id: a card that is not there is an
/// error of the lookup (`InternalServerError`), so a success is always `true`.
pub fn whether_card_is_exist(found: bool) -> (r: Result<bool, ApiStatus>)
    ensures
        r == (if found {
            Ok::<bool, ApiStatus>(true)
        } else {
            Err::<bool, ApiStatus>(ApiStatus::InternalServerError)
        }),
{
    if found {
        Ok(true)
    } else {
        Err(ApiStatus::InternalServerError)
    }
}

/// Whether a card may be read or updated, given the result of the existence
/// check: the check's error passes through, and a card reported absent is
/// `NotFound`.
pub fn require_card(existence: Result<bool, ApiStatus>) -> (r: Result<(), ApiStatus>)
    ensures
        match existence {
            Ok(true) => r == Ok::<(), ApiStatus>(()),
            Ok(false) => r == Err::<(), ApiStatus>(ApiStatus::NotFound),
            Err(e) => r == Err::<(), ApiStatus>(e),
        },
{
    match existence {
        Ok(true) => Ok(()),
        Ok(false) => Err(ApiStatus::NotFound),
        Err(e) => Err(e),
    }
}

/// The thread created with a new card, stamped `time`: empty title and
/// content, the card's id and that time; `InternalServerError` when there is no
/// time stamp.
pub fn card_thread_request_at(card_id: i32, time: Option<chrono::NaiveDateTime>) -> (r: Result<
    NewResearcherCardThread,
    ApiStatus,
>)
    ensures
        match time {
            Some(now) => r matches Ok(t) && t.title@ == Seq::<char>::empty() && t.content@ == Seq::<char>::empty()
                && t.researcher_id == card_id && t.time == now,
            None => r == Err::<NewResearcherCardThread, ApiStatus>(ApiStatus::InternalServerError),
        },
{
    match time {
        Some(time) => Ok(NewResearcherCardThread {
            title: String::new(),
            content: String::new(),
            researcher_id: card_id,
            time,
        }),
        None => Err(ApiStatus::InternalServerError),
    }
}

/// The thread created with a new card: empty title and content, the card's id,
/// and the current time; `InternalServerError` when the clock cannot be read.
pub fn card_thread_request(card_id: i32) -> (r: Result<NewResearcherCardThread, ApiStatus>)
    ensures
        match r {
            Ok(t) => t.title@ == Seq::<char>::empty() && t.content@ == Seq::<char>::empty()
                && t.researcher_id == card_id,
            Err(e) => e == ApiStatus::InternalServerError,
        },
{
    card_thread_request_at(card_id, get_current_time())
}

} // verus!
