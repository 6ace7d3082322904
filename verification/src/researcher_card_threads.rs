//! The discussion thread of each researcher card.
use vstd::prelude::*;
use crate::models::{is_comm_of, Reply, ReplyComm};
use crate::researcher_card::whether_card_is_exist;
use crate::status::ApiStatus;
use crate::utils::time::get_current_time;
use crate::utils::tlv::{all_decoded, all_some, unwrap_all};

verus! {

/// A researcher card's thread as stored in the database.
pub struct ResearcherCardThread {
    pub id: i32,
    pub title: String,
    pub content: String,
    pub time: chrono::NaiveDateTime,
    pub reply_data: Vec<u8>,
    pub researcher_id: i32,
}

/// The fields of a card thread to create.
pub struct NewResearcherCardThread {
    pub title: String,
    pub content: String,
    pub researcher_id: i32,
    pub time: chrono::NaiveDateTime,
}

/// A card thread with its comments in outward form.
pub struct ResearcherCardThreadWithRepliesComm {
    pub id: i32,
    pub title: String,
    pub content: String,
    pub time: chrono::NaiveDateTime,
    pub replies: Vec<ReplyComm>,
    pub researcher_id: i32,
}

impl ResearcherCardThreadWithRepliesComm {
    /// A stored card thread with its comments, from its encoded comments each
    /// read as a reply: all of them in outward form when each was read, none
    /// as soon as one was not.
    pub fn from_database_thread(thread: &ResearcherCardThread, decoded: Vec<Option<Reply>>) -> (r: Self)
        ensures
            r.id == thread.id,
            r.title == thread.title,
            r.content == thread.content,
            r.time == thread.time,
            r.researcher_id == thread.researcher_id,
            all_some(decoded@) ==> r.replies@.len() == decoded@.len() && forall|i: int|
                0 <= i < r.replies@.len() ==> is_comm_of(#[trigger] r.replies@[i], unwrap_all(decoded@)[i]),
            !all_some(decoded@) ==> r.replies@.len() == 0,
    {
        let replies = match all_decoded(decoded) {
            Some(v) => v,
            None => Vec::new(),
        };
        let comm_replies = ReplyComm::from_replies(replies);
        ResearcherCardThreadWithRepliesComm {
            id: thread.id,
            title: thread.title.clone(),
            content: thread.content.clone(),
            time: thread.time,
            replies: comm_replies,
            researcher_id: thread.researcher_id,
        }
    }
}

/// The outcome of looking a card thread up by id: a thread that is not there is
/// an error of the lookup (`InternalServerError`), so a success is always `true`.
pub fn whether_researcher_card_thread_is_exist(found: bool) -> (r: Result<bool, ApiStatus>)
    ensures
        r == (if found {
            Ok::<bool, ApiStatus>(true)
        } else {
            Err::<bool, ApiStatus>(ApiStatus::InternalServerError)
        }),
{
    if found {
        Ok(true)
    } else {
        Err(ApiStatus::InternalServerError)
    }
}

/// Admits a new card thread: the card must be found (else the existence
/// check's `InternalServerError`) and must not have a thread yet (else
/// `BadRequest`); the thread, whatever its title and content, is then stamped
/// `time` (`InternalServerError` when there is no time stamp).
pub fn create_researcher_card_thread_at(
    new_thread: NewResearcherCardThread,
    card_found: bool,
    card_has_thread: bool,
    time: Option<chrono::NaiveDateTime>,
) -> (r: Result<NewResearcherCardThread, ApiStatus>)
    ensures
        !card_found ==> r == Err::<NewResearcherCardThread, ApiStatus>(ApiStatus::InternalServerError),
        card_found && card_has_thread ==> r == Err::<NewResearcherCardThread, ApiStatus>(
            ApiStatus::BadRequest,
        ),
        admits_card_thread(card_found, card_has_thread) ==> match time {
            Some(now) => r matches Ok(t) && t.title == new_thread.title && t.content == new_thread.content
                && t.researcher_id == new_thread.researcher_id && t.time == now,
            None => r == Err::<NewResearcherCardThread, ApiStatus>(ApiStatus::InternalServerError),
        },
{
    match whether_card_is_exist(card_found) {
        Err(e) => {
            return Err(e);
        },
        Ok(exists) => {
            if !exists {
                return Err(ApiStatus::NotFound);
            }
        },
    }
    if card_has_thread {
        return Err(ApiStatus::BadRequest);
    }
    match time {
        Some(time) => {
            let mut new_thread = new_thread;
            new_thread.time = time;
            Ok(new_thread)
        },
        None => Err(ApiStatus::InternalServerError),
    }
}

/// Admits a new card thread: the card must be found (else the existence
/// check's `InternalServerError`) and must not have a thread yet (else
/// `BadRequest`); the thread is then stamped with the current time
/// (`InternalServerError` when the clock cannot be read).
pub fn create_researcher_card_thread(
    new_thread: NewResearcherCardThread,
    card_found: bool,
    card_has_thread: bool,
) -> (r: Result<NewResearcherCardThread, ApiStatus>)
    ensures
        !card_found ==> r == Err::<NewResearcherCardThread, ApiStatus>(ApiStatus::InternalServerError),
        card_found && card_has_thread ==> r == Err::<NewResearcherCardThread, ApiStatus>(
            ApiStatus::BadRequest,
        ),
        r is Ok ==> admits_card_thread(card_found, card_has_thread),
        card_found && !card_has_thread ==> match r {
            Ok(t) => t.title == new_thread.title && t.content == new_thread.content
                && t.researcher_id == new_thread.researcher_id,
            Err(e) => e == ApiStatus::InternalServerError,
        },
{
    create_researcher_card_thread_at(new_thread, card_found, card_has_thread, get_current_time())
}

/// Whether a new thread is admitted for a card: the card exists and has no
/// thread yet.
pub open spec fn admits_card_thread(card_found: bool, card_has_thread: bool) -> bool {
    card_found && !card_has_thread
}

/// Each card has at most one thread: when the cards that have threads are all
/// distinct and a new thread is admitted for a card (which is checked to have
/// none), they stay distinct after it is added.
pub proof fn law_one_thread_per_card(researcher_ids: Seq<i32>, researcher_id: i32, card_found: bool)
    requires
        researcher_ids.no_duplicates(),
        admits_card_thread(card_found, researcher_ids.contains(researcher_id)),
    ensures
        researcher_ids.push(researcher_id).no_duplicates(),
{
    let s = researcher_ids.push(researcher_id);
    assert forall|i: int, j: int| 0 <= i < s.len() && 0 <= j < s.len() && i != j implies s[i] != s[j] by {
        if i == s.len() - 1 {
            assert(s[j] == researcher_ids[j]);
        } else if j == s.len() - 1 {
            assert(s[i] == researcher_ids[i]);
        } else {
            assert(s[i] == researcher_ids[i] && s[j] == researcher_ids[j]);
        }
    }
}

/// The ids of the card threads, in order.
pub fn get_researcher_card_thread_ids(threads: &Vec<ResearcherCardThread>) -> (r: Vec<i32>)
    ensures
        r@ == threads@.map_values(|t: ResearcherCardThread| t.id),
{
    let mut r: Vec<i32> = Vec::new();
    let mut i: usize = 0;
    while i < threads.len()
        invariant
            i <= threads@.len(),
            r@ == threads@.take(i as int).map_values(|t: ResearcherCardThread| t.id),
        decreases threads@.len() - i,
    {
        r.push(threads[i].id);
        i = i + 1;
        assert(r@ =~= threads@.take(i as int).map_values(|t: ResearcherCardThread| t.id));
    }
    assert(threads@.take(i as int) =~= threads@);
    r
}

} // verus!
