//! Comments with numeric ids and their outward form, whose ids are decimal text.
use vstd::prelude::*;
use crate::utils::text::{decimal, i64_to_decimal};

verus! {

/// A comment whose id and parent id are numbers.
pub struct Reply {
    pub id: i64,
    pub parent_id: Option<i64>,
    pub content: String,
    pub time: chrono::NaiveDateTime,
}

/// A comment as sent to clients: ids as decimal text.
pub struct ReplyComm {
    pub id: String,
    pub parent_id: Option<String>,
    pub content: String,
    pub time: chrono::NaiveDateTime,
}

/// A client's request to comment, with the parent id as text.
pub struct NewReplyComm {
    pub thread_id: i32,
    pub parent_id: Option<String>,
    pub content: String,
}

/// A thread with its comments in outward form.
pub struct ThreadWithRepliesComm {
    pub id: i32,
    pub title: String,
    pub content: String,
    pub time: chrono::NaiveDateTime,
    pub replies: Vec<ReplyComm>,
}

/// `c` is the outward form of `r`: the same comment with its ids written in decimal.
pub open spec fn is_comm_of(c: ReplyComm, r: Reply) -> bool {
    &&& c.id@ == decimal(r.id as int)
    &&& match (c.parent_id, r.parent_id) {
        (Some(cp), Some(rp)) => cp@ == decimal(rp as int),
        (None, None) => true,
        _ => false,
    }
    &&& c.content == r.content
    &&& c.time == r.time
}

impl ReplyComm {
    /// The outward form of a comment.
    pub fn from_reply(reply: Reply) -> (r: ReplyComm)
        ensures
            is_comm_of(r, reply),
    {
        ReplyComm {
            id: i64_to_decimal(reply.id),
            parent_id: match reply.parent_id {
                Some(pid) => Some(i64_to_decimal(pid)),
                None => None,
            },
            content: reply.content,
            time: reply.time,
        }
    }

    /// The outward forms of comments, in the same order.
    pub fn from_replies(replies: Vec<Reply>) -> (r: Vec<ReplyComm>)
        ensures
            r@.len() == replies@.len(),
            forall|i: int| 0 <= i < r@.len() ==> is_comm_of(#[trigger] r@[i], replies@[i]),
    {
        let ghost orig = replies@;
        let mut rest = replies;
        let mut out: Vec<ReplyComm> = Vec::new();
        while rest.len() > 0
            invariant
                orig == replies@,
                rest@ == orig.take(rest@.len() as int),
                rest@.len() <= orig.len(),
                out@.len() == orig.len() - rest@.len(),
                forall|i: int|
                    0 <= i < out@.len() ==> is_comm_of(#[trigger] out@[i], orig[rest@.len() + i]),
            decreases rest@.len(),
        {
            let ghost before = rest@.len();
            let reply = rest.pop().unwrap();
            assert(reply == orig[before - 1]);
            let c = ReplyComm::from_reply(reply);
            let ghost old_out = out@;
            out.insert(0, c);
            assert(rest@ =~= orig.take(rest@.len() as int));
            assert forall|i: int| 0 <= i < out@.len() implies is_comm_of(
                #[trigger] out@[i],
                orig[rest@.len() + i],
            ) by {
                if i > 0 {
                    assert(out@[i] == old_out[i - 1]);
                }
            }
        }
        out
    }
}

} // verus!
