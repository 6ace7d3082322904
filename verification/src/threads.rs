//! General discussion threads and their comments. A thread's comments are kept
//! as a log of reply frames in its `reply_data`; a new comment is one more
//! frame appended to it.
use vstd::prelude::*;
use crate::status::ApiStatus;
use crate::utils::snowflake::{base64_url_safe, be_i64_bytes, millis_of, snowflake_id_at, snowflake_spec, snowflake_text};
use crate::utils::text::{parse_i32, parse_i32_spec};
use crate::utils::time::{get_current_time, unix_time_now};
use crate::utils::tlv::{all_decoded, all_some, byte_views, decode, decode_spec, encode, frame, unwrap_all, REPLY_TYPE};

verus! {

/// A thread as stored in the database.
pub struct Thread {
    pub id: i32,
    pub title: String,
    pub content: String,
    pub time: chrono::NaiveDateTime,
    pub reply_data: Vec<u8>,
    pub room_id: i32,
}

/// A comment of a thread, as kept in its reply log.
pub struct Reply {
    pub id: String,
    pub parent_id: Option<String>,
    pub content: String,
    pub time: chrono::NaiveDateTime,
}

/// A request to open a thread.
pub struct NewThread {
    pub title: String,
    pub content: String,
    pub room_id: i32,
}

/// The row inserted for a new thread: its title, content and room, an empty
/// reply log, the author's id and the creation time.
pub struct ThreadRow {
    pub title: String,
    pub content: String,
    pub reply_data: Vec<u8>,
    pub room_id: i32,
    pub time: chrono::NaiveDateTime,
    pub user_id: i32,
}

/// The answer to opening a thread: the thread as created, with its empty reply log.
pub struct ThreadAnswer {
    pub id: i32,
    pub title: String,
    pub content: String,
    pub data: Vec<u8>,
    pub room_id: i32,
}

/// A thread with its comments decoded.
pub struct ThreadWithReplies {
    pub id: i32,
    pub title: String,
    pub content: String,
    pub time: chrono::NaiveDateTime,
    pub replies: Vec<Reply>,
}

/// A request to comment on a thread, at top level or under the comment `parent_id`.
pub struct NewReply {
    pub thread_id: i32,
    pub parent_id: Option<String>,
    pub content: String,
}

/// The user id that a session lookup found, as text: `Unauthorized` when the
/// session is unknown, `InternalServerError` when the text is not an `i32`.
pub fn resolve_user_id(cached: Option<String>) -> (r: Result<i32, ApiStatus>)
    ensures
        match cached {
            None => r == Err::<i32, ApiStatus>(ApiStatus::Unauthorized),
            Some(s) => match parse_i32_spec(s@) {
                Some(id) => r == Ok::<i32, ApiStatus>(id),
                None => r == Err::<i32, ApiStatus>(ApiStatus::InternalServerError),
            },
        },
{
    match cached {
        None => Err(ApiStatus::Unauthorized),
        Some(s) => match parse_i32(s.as_str()) {
            Some(id) => Ok(id),
            None => Err(ApiStatus::InternalServerError),
        },
    }
}

/// A lookup that must have found its row: `NotFound` otherwise.
pub fn require_found(found: bool) -> (r: Result<(), ApiStatus>)
    ensures
        r == (if found {
            Ok::<(), ApiStatus>(())
        } else {
            Err::<(), ApiStatus>(ApiStatus::NotFound)
        }),
{
    if found {
        Ok(())
    } else {
        Err(ApiStatus::NotFound)
    }
}

/// The values of a reply log: none for an empty log or for one that does not
/// read cleanly.
pub open spec fn reply_log_spec(data: Seq<u8>) -> Seq<Seq<u8>> {
    if data.len() == 0 {
        Seq::empty()
    } else {
        match decode_spec(data, REPLY_TYPE) {
            Some(v) => v,
            None => Seq::empty(),
        }
    }
}

/// The encoded comments of a reply log, in order; none when the log is empty
/// or does not read cleanly.
pub fn reply_log_values(data: &[u8]) -> (r: Vec<Vec<u8>>)
    ensures
        byte_views(r@) == reply_log_spec(data@),
{
    if data.len() == 0 {
        let r: Vec<Vec<u8>> = Vec::new();
        assert(byte_views(r@) =~= Seq::<Seq<u8>>::empty());
        return r;
    }
    match decode(data, REPLY_TYPE) {
        Ok(v) => v,
        Err(_) => {
            let r: Vec<Vec<u8>> = Vec::new();
            assert(byte_views(r@) =~= Seq::<Seq<u8>>::empty());
            r
        },
    }
}

/// The comments of a thread from its encoded comments each read as a reply:
/// all of them when each was read, none as soon as one was not.
pub fn decode_replies(decoded: Vec<Option<Reply>>) -> (r: Vec<Reply>)
    ensures
        all_some(decoded@) ==> r@ == unwrap_all(decoded@),
        !all_some(decoded@) ==> r@.len() == 0,
{
    match all_decoded(decoded) {
        Some(v) => v,
        None => Vec::new(),
    }
}

/// Whether some comment has the id `parent_id`.
pub fn parent_reply_exists(replies: &Vec<Reply>, parent_id: &String) -> (r: bool)
    ensures
        r == exists|i: int| 0 <= i < replies@.len() && (#[trigger] replies@[i]).id@ == parent_id@,
{
    let mut i: usize = 0;
    while i < replies.len()
        invariant
            i <= replies@.len(),
            forall|j: int| 0 <= j < i ==> (#[trigger] replies@[j]).id@ != parent_id@,
        decreases replies@.len() - i,
    {
        if replies[i].id.eq(parent_id) {
            return true;
        }
        i = i + 1;
    }
    false
}

/// A comment under `parent_id` needs that comment among the thread's
/// comments (`NotFound` otherwise); a top-level comment needs nothing.
pub fn check_parent(parent_id: &Option<String>, replies: &Vec<Reply>) -> (r: Result<(), ApiStatus>)
    ensures
        match parent_id {
            None => r == Ok::<(), ApiStatus>(()),
            Some(p) => if exists|i: int| 0 <= i < replies@.len() && (#[trigger] replies@[i]).id@ == p@ {
                r == Ok::<(), ApiStatus>(())
            } else {
                r == Err::<(), ApiStatus>(ApiStatus::NotFound)
            },
        },
{
    match parent_id {
        None => Ok(()),
        Some(p) => {
            if parent_reply_exists(replies, p) {
                Ok(())
            } else {
                Err(ApiStatus::NotFound)
            }
        },
    }
}

/// `reply` is a reply made for `request` on `node_id` with the sequence number
/// `sequence`: the request's parent and content, and a snowflake id.
pub open spec fn is_reply_for(reply: Reply, request: NewReply, node_id: u16, sequence: u16) -> bool {
    &&& reply.parent_id == request.parent_id
    &&& reply.content == request.content
    &&& exists|t: u64| reply.id@ == base64_url_safe(be_i64_bytes(#[trigger] snowflake_spec(t, node_id, sequence)))
}

/// A top-level comment, or one whose parent is among `replies`.
pub open spec fn parent_found(parent_id: Option<String>, replies: Seq<Reply>) -> bool {
    match parent_id {
        None => true,
        Some(p) => exists|i: int| 0 <= i < replies.len() && (#[trigger] replies[i]).id@ == p@,
    }
}

/// A copy of an optional text.
pub fn clone_opt_string(s: &Option<String>) -> (r: Option<String>)
    ensures
        r == *s,
{
    match s {
        Some(t) => Some(t.clone()),
        None => None,
    }
}

/// `reply` is the reply made for `request` on `node_id` with the sequence
/// number `sequence`, from the clock reading `reading` (seconds and nanoseconds
/// since the Unix epoch) and the time stamp `time`: the request's parent and
/// content, the snowflake id of that millisecond, and that time.
pub open spec fn is_reply_at(
    reply: Reply,
    request: NewReply,
    node_id: u16,
    sequence: u16,
    reading: (u64, u32),
    time: chrono::NaiveDateTime,
) -> bool {
    &&& reply.parent_id == request.parent_id
    &&& reply.content == request.content
    &&& reply.id@ == snowflake_text(millis_of(reading.0, reading.1), node_id, sequence)
    &&& reply.time == time
}

/// The reply for a comment request from the clock reading `reading`, for its
/// snowflake id on `node_id` (taking the next sequence number), and the time
/// stamp `time`. It is made exactly when both are there;
/// `InternalServerError` otherwise.
pub fn build_reply_at(
    new_reply: &NewReply,
    node_id: u16,
    sequence: &mut u16,
    reading: Option<(u64, u32)>,
    time: Option<chrono::NaiveDateTime>,
) -> (r: Result<Reply, ApiStatus>)
    ensures
        *final(sequence) == vstd::wrapping::u16_specs::wrapping_add(*old(sequence), 1),
        match (reading, time) {
            (Some(reading), Some(time)) => r matches Ok(reply) && is_reply_at(
                reply,
                *new_reply,
                node_id,
                *old(sequence),
                reading,
                time,
            ),
            _ => r == Err::<Reply, ApiStatus>(ApiStatus::InternalServerError),
        },
{
    let id = match snowflake_id_at(node_id, sequence, reading) {
        Some(id) => id,
        None => {
            return Err(ApiStatus::InternalServerError);
        },
    };
    match time {
        Some(time) => Ok(Reply {
            id,
            parent_id: clone_opt_string(&new_reply.parent_id),
            content: new_reply.content.clone(),
            time,
        }),
        None => Err(ApiStatus::InternalServerError),
    }
}

/// The reply for a comment request: a new snowflake id on `node_id` (taking
/// the next sequence number), the request's parent and content, and the
/// current time. `InternalServerError` when the clock cannot be read.
pub fn build_reply(new_reply: &NewReply, node_id: u16, sequence: &mut u16) -> (r: Result<Reply, ApiStatus>)
    ensures
        *final(sequence) == vstd::wrapping::u16_specs::wrapping_add(*old(sequence), 1),
        r matches Ok(reply) ==> {
            &&& reply.parent_id == new_reply.parent_id
            &&& reply.content == new_reply.content
            &&& exists|t: u64| reply.id@ == base64_url_safe(be_i64_bytes(#[trigger] snowflake_spec(t, node_id, *old(sequence))))
        },
        r is Err ==> r == Err::<Reply, ApiStatus>(ApiStatus::InternalServerError),
{
    build_reply_at(new_reply, node_id, sequence, unix_time_now(), get_current_time())
}

/// Where the handling of a comment request stands.
#[derive(PartialEq, Eq, Structural)]
pub enum CommentStage {
    /// Waiting for the session store's answer for the sender's hash.
    AwaitSession,
    /// Waiting to learn whether the sender's account exists.
    AwaitUser,
    /// Waiting to learn whether the thread exists.
    AwaitThread,
    /// Waiting for the thread's comments, to look for the parent.
    AwaitReplies,
    /// Waiting for the new comment to be appended to the thread's log.
    AwaitWrite,
    /// The request is answered.
    Done,
}

/// What the handler learned by doing the last action.
pub enum CommentEvent {
    /// The user id text the session store holds for the hash, if any.
    Session(Option<String>),
    /// Whether an account with the user id exists.
    UserExists(bool),
    /// Whether the thread exists.
    ThreadExists(bool),
    /// The thread's comments; `None` when the thread could not be fetched.
    Replies(Option<Vec<Reply>>),
    /// Whether the reply was encoded and appended.
    Written(bool),
}

/// What the handler does next.
pub enum CommentAction {
    /// Look the sender's session hash up in the session store.
    LookupSession(String),
    /// Check that an account with this user id exists.
    CheckUser(i32),
    /// Check that the thread exists.
    CheckThread(i32),
    /// Fetch the thread's comments.
    LoadReplies(i32),
    /// Encode `reply` and append its frame to the thread's log.
    Append { thread_id: i32, reply: Reply },
    /// Answer with this status.
    Finish(ApiStatus),
}

/// The first step of handling a comment from the holder of `user_hash`: look
/// the session up.
pub fn start_comment(user_hash: &str) -> (r: (CommentStage, CommentAction))
    ensures
        r.0 == CommentStage::AwaitSession,
        r.1 matches CommentAction::LookupSession(h) && h@ == user_hash@,
{
    (CommentStage::AwaitSession, CommentAction::LookupSession(user_hash.to_owned()))
}

/// Whether this step makes the reply (and so takes a sequence number).
pub open spec fn step_builds_reply(stage: CommentStage, request: NewReply, event: CommentEvent) -> bool {
    match (stage, event) {
        (CommentStage::AwaitThread, CommentEvent::ThreadExists(true)) => request.parent_id is None,
        (CommentStage::AwaitReplies, CommentEvent::Replies(Some(rs))) => parent_found(request.parent_id, rs@),
        _ => false,
    }
}

/// The step moved on to appending a reply made for `request`.
pub open spec fn appends_reply_for(r: (CommentStage, CommentAction), request: NewReply, node_id: u16, sequence: u16) -> bool {
    &&& r.0 == CommentStage::AwaitWrite
    &&& match r.1 {
        CommentAction::Append { thread_id, reply } => thread_id == request.thread_id && is_reply_for(
            reply,
            request,
            node_id,
            sequence,
        ),
        _ => false,
    }
}

fn make_reply_action(
    request: &NewReply,
    node_id: u16,
    sequence: &mut u16,
    reading: Option<(u64, u32)>,
    time: Option<chrono::NaiveDateTime>,
) -> (r: (CommentStage, CommentAction))
    ensures
        *final(sequence) == vstd::wrapping::u16_specs::wrapping_add(*old(sequence), 1),
        appends_reply_at(r, *request, node_id, *old(sequence), reading, time),
{
    match build_reply_at(request, node_id, sequence, reading, time) {
        Ok(reply) => (CommentStage::AwaitWrite, CommentAction::Append { thread_id: request.thread_id, reply }),
        Err(e) => (CommentStage::Done, CommentAction::Finish(e)),
    }
}

/// The step's answer when it does not make a reply: where the request stands
/// next and what to do, by the stage and the event.
pub open spec fn step_answer(stage: CommentStage, request: NewReply, event: CommentEvent, r: (CommentStage, CommentAction)) -> bool {
    match (stage, event) {
        (CommentStage::AwaitSession, CommentEvent::Session(c)) => match c {
            None => r.0 == CommentStage::Done && r.1 == CommentAction::Finish(ApiStatus::Unauthorized),
            Some(text) => match parse_i32_spec(text@) {
                Some(id) => r.0 == CommentStage::AwaitUser && r.1 == CommentAction::CheckUser(id),
                None => r.0 == CommentStage::Done && r.1 == CommentAction::Finish(ApiStatus::InternalServerError),
            },
        },
        (CommentStage::AwaitUser, CommentEvent::UserExists(b)) => if b {
            r.0 == CommentStage::AwaitThread && r.1 == CommentAction::CheckThread(request.thread_id)
        } else {
            r.0 == CommentStage::Done && r.1 == CommentAction::Finish(ApiStatus::NotFound)
        },
        (CommentStage::AwaitThread, CommentEvent::ThreadExists(b)) => if b {
            r.0 == CommentStage::AwaitReplies && r.1 == CommentAction::LoadReplies(request.thread_id)
        } else {
            r.0 == CommentStage::Done && r.1 == CommentAction::Finish(ApiStatus::NotFound)
        },
        (CommentStage::AwaitReplies, CommentEvent::Replies(rs)) => r.0 == CommentStage::Done && r.1 == CommentAction::Finish(
            if rs is None { ApiStatus::InternalServerError } else { ApiStatus::NotFound },
        ),
        (CommentStage::AwaitWrite, CommentEvent::Written(ok)) => r.0 == CommentStage::Done && r.1 == CommentAction::Finish(
            if ok { ApiStatus::Created } else { ApiStatus::InternalServerError },
        ),
        _ => r.0 == CommentStage::Done && r.1 == CommentAction::Finish(ApiStatus::InternalServerError),
    }
}

/// The step that makes a reply, from the clock reading `reading` and the time
/// stamp `time`: with both there, it moves on to appending to the request's
/// thread the reply made for the request from them; without either, it ends
/// with `InternalServerError`.
pub open spec fn appends_reply_at(
    r: (CommentStage, CommentAction),
    request: NewReply,
    node_id: u16,
    sequence: u16,
    reading: Option<(u64, u32)>,
    time: Option<chrono::NaiveDateTime>,
) -> bool {
    match (reading, time) {
        (Some(reading), Some(time)) => r.0 == CommentStage::AwaitWrite && match r.1 {
            CommentAction::Append { thread_id, reply } => thread_id == request.thread_id && is_reply_at(
                reply,
                request,
                node_id,
                sequence,
                reading,
                time,
            ),
            _ => false,
        },
        _ => r.0 == CommentStage::Done && r.1 == CommentAction::Finish(ApiStatus::InternalServerError),
    }
}

/// One step of handling a comment request on a thread, as `comment_step`
/// takes it, with the clock reading `reading` (for the new comment's id) and
/// the time stamp `time` that a step making the comment uses. Once the session,
/// account and thread checks pass and, for a reply to a comment, the parent is
/// among the thread's comments (whether or not that comment is itself a reply),
/// the step moves on to appending the comment made from them; it ends with
/// `InternalServerError` there only when the reading or the time stamp is missing.
pub fn comment_step_at(
    stage: CommentStage,
    request: &NewReply,
    event: CommentEvent,
    node_id: u16,
    sequence: &mut u16,
    reading: Option<(u64, u32)>,
    time: Option<chrono::NaiveDateTime>,
) -> (r: (CommentStage, CommentAction))
    ensures
        *final(sequence) == if step_builds_reply(stage, *request, event) {
            vstd::wrapping::u16_specs::wrapping_add(*old(sequence), 1)
        } else {
            *old(sequence)
        },
        step_builds_reply(stage, *request, event) ==> appends_reply_at(r, *request, node_id, *old(sequence), reading, time),
        !step_builds_reply(stage, *request, event) ==> step_answer(stage, *request, event, r),
{
    match (stage, event) {
        (CommentStage::AwaitSession, CommentEvent::Session(c)) => match resolve_user_id(c) {
            Ok(id) => (CommentStage::AwaitUser, CommentAction::CheckUser(id)),
            Err(e) => (CommentStage::Done, CommentAction::Finish(e)),
        },
        (CommentStage::AwaitUser, CommentEvent::UserExists(b)) => {
            if b {
                (CommentStage::AwaitThread, CommentAction::CheckThread(request.thread_id))
            } else {
                (CommentStage::Done, CommentAction::Finish(ApiStatus::NotFound))
            }
        },
        (CommentStage::AwaitThread, CommentEvent::ThreadExists(b)) => {
            if !b {
                (CommentStage::Done, CommentAction::Finish(ApiStatus::NotFound))
            } else if request.parent_id.is_none() {
                make_reply_action(request, node_id, sequence, reading, time)
            } else {
                (CommentStage::AwaitReplies, CommentAction::LoadReplies(request.thread_id))
            }
        },
        (CommentStage::AwaitReplies, CommentEvent::Replies(rs)) => match rs {
            None => (CommentStage::Done, CommentAction::Finish(ApiStatus::InternalServerError)),
            Some(replies) => match check_parent(&request.parent_id, &replies) {
                Ok(()) => make_reply_action(request, node_id, sequence, reading, time),
                Err(e) => (CommentStage::Done, CommentAction::Finish(e)),
            },
        },
        (CommentStage::AwaitWrite, CommentEvent::Written(ok)) => {
            if ok {
                (CommentStage::Done, CommentAction::Finish(ApiStatus::Created))
            } else {
                (CommentStage::Done, CommentAction::Finish(ApiStatus::InternalServerError))
            }
        },
        _ => (CommentStage::Done, CommentAction::Finish(ApiStatus::InternalServerError)),
    }
}

/// One step of handling a comment request on a thread: from where it stands
/// and what the last action learned, to where it stands next and what to do.
/// The checks run in this order: the session (`Unauthorized`, or
/// `InternalServerError` for an id that is not a number), the account
/// (`NotFound`), the thread (`NotFound`), then for a reply to a comment the
/// parent among the thread's comments (`NotFound`, or `InternalServerError`
/// when the thread could not be fetched). Only when all pass is the reply made
/// from the clock and appended, answered `Created`, or `InternalServerError`
/// when that fails.
/// An event that does not fit the stage ends the request with `InternalServerError`.
pub fn comment_step(
    stage: CommentStage,
    request: &NewReply,
    event: CommentEvent,
    node_id: u16,
    sequence: &mut u16,
) -> (r: (CommentStage, CommentAction))
    ensures
        *final(sequence) == if step_builds_reply(stage, *request, event) {
            vstd::wrapping::u16_specs::wrapping_add(*old(sequence), 1)
        } else {
            *old(sequence)
        },
        step_builds_reply(stage, *request, event) ==> (appends_reply_for(r, *request, node_id, *old(sequence))
            || (r.0 == CommentStage::Done && r.1 == CommentAction::Finish(ApiStatus::InternalServerError))),
        !step_builds_reply(stage, *request, event) ==> step_answer(stage, *request, event, r),
{
    comment_step_at(stage, request, event, node_id, sequence, unix_time_now(), get_current_time())
}

/// The frame that appends an encoded reply to a reply log.
pub fn reply_frame(payload: &[u8]) -> (r: Vec<u8>)
    ensures
        r@ == frame(REPLY_TYPE, payload@),
{
    encode(REPLY_TYPE, payload)
}

/// The row for a new thread opened by `user_id` and stamped `time`: the
/// request's title, content and room, an empty reply log, the author and that
/// time; `InternalServerError` when there is no time stamp.
pub fn new_thread_row_at(new_thread: &NewThread, user_id: i32, time: Option<chrono::NaiveDateTime>) -> (r: Result<
    ThreadRow,
    ApiStatus,
>)
    ensures
        match time {
            Some(t) => r matches Ok(row) && row.title == new_thread.title && row.content == new_thread.content
                && row.reply_data@ == Seq::<u8>::empty() && row.room_id == new_thread.room_id
                && row.user_id == user_id && row.time == t,
            None => r == Err::<ThreadRow, ApiStatus>(ApiStatus::InternalServerError),
        },
{
    match time {
        Some(time) => Ok(ThreadRow {
            title: new_thread.title.clone(),
            content: new_thread.content.clone(),
            reply_data: Vec::new(),
            room_id: new_thread.room_id,
            time,
            user_id,
        }),
        None => Err(ApiStatus::InternalServerError),
    }
}

/// The row for a new thread opened by `user_id`, stamped with the current time;
/// `InternalServerError` when the clock cannot be read.
pub fn new_thread_row(new_thread: &NewThread, user_id: i32) -> (r: Result<ThreadRow, ApiStatus>)
    ensures
        match r {
            Ok(row) => row.title == new_thread.title && row.content == new_thread.content
                && row.reply_data@ == Seq::<u8>::empty() && row.room_id == new_thread.room_id
                && row.user_id == user_id,
            Err(e) => e == ApiStatus::InternalServerError,
        },
{
    new_thread_row_at(new_thread, user_id, get_current_time())
}

/// The answer to opening a thread whose row `row` was inserted under the id
/// `id`: that id with the row's title, content, reply log and room.
pub fn create_thread_answer(id: i32, row: ThreadRow) -> (r: ThreadAnswer)
    ensures
        r.id == id,
        r.title == row.title,
        r.content == row.content,
        r.data == row.reply_data,
        r.room_id == row.room_id,
{
    ThreadAnswer { id, title: row.title, content: row.content, data: row.reply_data, room_id: row.room_id }
}

/// The ids of the threads, in order.
pub fn list_threads_ids(threads: &Vec<Thread>) -> (r: Vec<i32>)
    ensures
        r@ == threads@.map_values(|t: Thread| t.id),
{
    let mut r: Vec<i32> = Vec::new();
    let mut i: usize = 0;
    while i < threads.len()
        invariant
            i <= threads@.len(),
            r@ == threads@.take(i as int).map_values(|t: Thread| t.id),
        decreases threads@.len() - i,
    {
        r.push(threads[i].id);
        i = i + 1;
        assert(r@ =~= threads@.take(i as int).map_values(|t: Thread| t.id));
    }
    assert(threads@.take(i as int) =~= threads@);
    r
}

/// A thread together with its decoded comments.
pub fn get_thread(thread: Thread, replies: Vec<Reply>) -> (r: ThreadWithReplies)
    ensures
        r.id == thread.id,
        r.title == thread.title,
        r.content == thread.content,
        r.time == thread.time,
        r.replies == replies,
{
    ThreadWithReplies {
        id: thread.id,
        title: thread.title,
        content: thread.content,
        replies,
        time: thread.time,
    }
}

/// A comment appended to a thread whose log reads cleanly is the last of the
/// thread's comments afterwards, after all those it had before.
pub proof fn law_comment_appears(log: Seq<u8>, payload: Seq<u8>)
    requires
        decode_spec(log, REPLY_TYPE) is Some,
        payload.len() <= u32::MAX,
    ensures
        reply_log_spec(log + frame(REPLY_TYPE, payload)) == reply_log_spec(log).push(payload),
{
    crate::utils::tlv::law_append_frame(log, REPLY_TYPE, payload);
    assert((log + frame(REPLY_TYPE, payload)).len() > 0);
    if log.len() == 0 {
        crate::utils::tlv::law_decode_empty(REPLY_TYPE);
    }
}

/// A reply may be made to any comment of the thread, whether that comment is
/// at top level or is itself a reply: once the comment named as parent is among
/// the thread's comments, the step that received them makes the reply.
pub proof fn law_reply_to_any_comment(request: NewReply, replies: Vec<Reply>, i: int)
    requires
        0 <= i < replies@.len(),
        request.parent_id matches Some(p) && replies@[i].id@ == p@,
    ensures
        step_builds_reply(CommentStage::AwaitReplies, request, CommentEvent::Replies(Some(replies))),
{
    assert(replies@[i].id@ == request.parent_id->0@);
}

} // verus!
