//! The session and user caches kept in the key-value store: their keys, the
//! writes each operation makes, and what a later read then finds.
use vstd::prelude::*;
use crate::status::ApiStatus;
use crate::user_mutate::UserReduced;
use crate::utils::text::{concat2, concat3, decimal, i32_to_decimal};

verus! {

/// Seconds a session token lives when no other lifetime is given (one day).
pub const DEFAULT_TOKEN_TTL: u64 = 86400;

/// Seconds a cached reduced user lives when no other lifetime is given (one week).
pub const DEFAULT_USER_REDUCED_TTL: u64 = 604800;

/// A write to the key-value store.
pub enum KvCommand {
    /// Store `value` under `key`, to expire after `seconds`.
    SetEx { key: String, value: String, seconds: u64 },
    /// Remove `key`.
    Del { key: String },
    /// Give `key` a new lifetime of `ttl` seconds, keeping its value.
    Expire { key: String, ttl: i64 },
}

/// What a write does, over the texts of its key and value.
pub enum KvOp {
    Put(Seq<char>, Seq<char>, u64),
    Remove(Seq<char>),
    Touch(Seq<char>, i64),
}

impl View for KvCommand {
    type V = KvOp;

    open spec fn view(&self) -> KvOp {
        match self {
            KvCommand::SetEx { key, value, seconds } => KvOp::Put(key@, value@, *seconds),
            KvCommand::Del { key } => KvOp::Remove(key@),
            KvCommand::Expire { key, ttl } => KvOp::Touch(key@, *ttl),
        }
    }
}

/// The views of a list of writes.
pub open spec fn op_views(cmds: Seq<KvCommand>) -> Seq<KvOp> {
    cmds.map_values(|c: KvCommand| c@)
}

/// The store's contents after one write; lifetimes are not modelled.
pub open spec fn apply_op(store: Map<Seq<char>, Seq<char>>, op: KvOp) -> Map<Seq<char>, Seq<char>> {
    match op {
        KvOp::Put(k, v, _) => store.insert(k, v),
        KvOp::Remove(k) => store.remove(k),
        KvOp::Touch(_, _) => store,
    }
}

/// The store's contents after the writes, in order.
pub open spec fn apply_ops(store: Map<Seq<char>, Seq<char>>, ops: Seq<KvOp>) -> Map<
    Seq<char>,
    Seq<char>,
>
    decreases ops.len(),
{
    if ops.len() == 0 {
        store
    } else {
        apply_ops(apply_op(store, ops[0]), ops.drop_first())
    }
}

/// Key of the cached reduced user with id `id`.
pub open spec fn user_reduced_key_spec(id: int) -> Seq<char> {
    "user_reduced:"@ + decimal(id)
}

/// Key under which a user's session token is kept.
pub open spec fn user_token_key_spec(user_id: Seq<char>) -> Seq<char> {
    "user:"@ + user_id + ":token"@
}

/// Key under which the user of a session token is kept.
pub open spec fn token_key_spec(token: Seq<char>) -> Seq<char> {
    "token:"@ + token
}

/// The writes that store a session: user to token, and token to user.
pub open spec fn store_user_token_ops(user_id: Seq<char>, token: Seq<char>, expire_seconds: Option<u64>) -> Seq<KvOp> {
    let e = match expire_seconds {
        Some(s) => s,
        None => DEFAULT_TOKEN_TTL,
    };
    seq![
        KvOp::Put(user_token_key_spec(user_id), token, e),
        KvOp::Put(token_key_spec(token), user_id, e),
    ]
}

/// The writes that end a user's session, given the token the store held for
/// the user when it was read.
pub open spec fn remove_user_token_ops(user_id: Seq<char>, current_token: Option<Seq<char>>) -> Seq<KvOp> {
    match current_token {
        Some(t) => seq![KvOp::Remove(user_token_key_spec(user_id)), KvOp::Remove(token_key_spec(t))],
        None => seq![KvOp::Remove(user_token_key_spec(user_id))],
    }
}

/// Key of the cached reduced user with id `id`: `user_reduced:<id>`.
pub fn user_reduced_key(id: i32) -> (r: String)
    ensures
        r@ == user_reduced_key_spec(id as int),
{
    let digits = i32_to_decimal(id);
    concat2("user_reduced:", digits.as_str())
}

/// Key under which a user's session token is kept: `user:<user_id>:token`.
pub fn user_token_key(user_id: &str) -> (r: String)
    ensures
        r@ == user_token_key_spec(user_id@),
{
    concat3("user:", user_id, ":token")
}

/// Key under which the user of a session token is kept: `token:<token>`.
pub fn token_key(token: &str) -> (r: String)
    ensures
        r@ == token_key_spec(token@),
{
    concat2("token:", token)
}

/// The writes that store a session for `user_id` with `token`, both ways, to
/// expire after `expire_seconds` or, by default, after one day.
pub fn store_user_token(user_id: &str, token: &str, expire_seconds: Option<u64>) -> (r: Vec<
    KvCommand,
>)
    ensures
        op_views(r@) == store_user_token_ops(user_id@, token@, expire_seconds),
{
    let expire = match expire_seconds {
        Some(s) => s,
        None => DEFAULT_TOKEN_TTL,
    };
    let mut r: Vec<KvCommand> = Vec::new();
    r.push(KvCommand::SetEx { key: user_token_key(user_id), value: token.to_owned(), seconds: expire });
    r.push(KvCommand::SetEx { key: token_key(token), value: user_id.to_owned(), seconds: expire });
    assert(op_views(r@) =~= store_user_token_ops(user_id@, token@, expire_seconds));
    r
}

/// The writes that end the session of `user_id`, given the token that a read of
/// its key found: that key goes, and so does the token's own key if there was one.
pub fn remove_user_token(user_id: &str, current_token: Option<String>) -> (r: Vec<KvCommand>)
    ensures
        op_views(r@) == remove_user_token_ops(
            user_id@,
            match current_token {
                Some(t) => Some(t@),
                None => None,
            },
        ),
{
    let mut r: Vec<KvCommand> = Vec::new();
    r.push(KvCommand::Del { key: user_token_key(user_id) });
    match current_token {
        Some(t) => {
            r.push(KvCommand::Del { key: token_key(t.as_str()) });
        },
        None => {},
    }
    assert(op_views(r@) =~= remove_user_token_ops(
        user_id@,
        match current_token {
            Some(t) => Some(t@),
            None => None,
        },
    ));
    r
}

/// The write that renews the lifetime of a cached reduced user, after a check
/// of whether its key exists: `NotFound` when it does not. The lifetime is
/// `expire_seconds`, by default one week.
pub fn refresh_user_reduced_ttl(id: i32, expire_seconds: Option<i64>, key_exists: bool) -> (r: Result<
    KvCommand,
    ApiStatus,
>)
    ensures
        !key_exists ==> r == Err::<KvCommand, ApiStatus>(ApiStatus::NotFound),
        key_exists ==> (r matches Ok(c) && c@ == KvOp::Touch(
            user_reduced_key_spec(id as int),
            match expire_seconds {
                Some(s) => s,
                None => DEFAULT_USER_REDUCED_TTL as i64,
            },
        )),
{
    let expire: i64 = match expire_seconds {
        Some(s) => s,
        None => 604800,
    };
    if !key_exists {
        return Err(ApiStatus::NotFound);
    }
    Ok(KvCommand::Expire { key: user_reduced_key(id), ttl: expire })
}

/// The write that caches a reduced user, given its serialized form, to expire
/// after `expire_seconds` or, by default, after one week.
pub fn save_user_reduced_rds(user_reduced: &UserReduced, serialized: String, expire_seconds: Option<u64>) -> (r: KvCommand)
    ensures
        r@ == KvOp::Put(
            user_reduced_key_spec(user_reduced.id as int),
            serialized@,
            match expire_seconds {
                Some(s) => s,
                None => DEFAULT_USER_REDUCED_TTL,
            },
        ),
{
    let expire = match expire_seconds {
        Some(s) => s,
        None => DEFAULT_USER_REDUCED_TTL,
    };
    KvCommand::SetEx { key: user_reduced_key(user_reduced.id), value: serialized, seconds: expire }
}

/// The write that caches a reduced user for the default week.
pub fn save_user_reduced_with_default_ttl(user_reduced: &UserReduced, serialized: String) -> (r: KvCommand)
    ensures
        r@ == KvOp::Put(user_reduced_key_spec(user_reduced.id as int), serialized@, DEFAULT_USER_REDUCED_TTL),
{
    save_user_reduced_rds(user_reduced, serialized, None)
}

/// What reading a cached reduced user's key came to.
pub enum CachedUserRead {
    /// The key holds nothing.
    Missing,
    /// The key holds this user, read from its serialized form.
    Parsed(UserReduced),
    /// The key holds text that is not a serialized reduced user.
    Unreadable,
}

/// The reduced user the cache holds: `None` for an absent key, the user read
/// from its serialized form, or `InternalServerError` for text that cannot be read.
pub fn get_user_reduced_from_rds(read: CachedUserRead) -> (r: Result<Option<UserReduced>, ApiStatus>)
    ensures
        match read {
            CachedUserRead::Missing => r == Ok::<Option<UserReduced>, ApiStatus>(None),
            CachedUserRead::Parsed(u) => r == Ok::<Option<UserReduced>, ApiStatus>(Some(u)),
            CachedUserRead::Unreadable => r == Err::<Option<UserReduced>, ApiStatus>(ApiStatus::InternalServerError),
        },
{
    match read {
        CachedUserRead::Missing => Ok(None),
        CachedUserRead::Parsed(u) => Ok(Some(u)),
        CachedUserRead::Unreadable => Err(ApiStatus::InternalServerError),
    }
}

/// A reduced user cached under its key is what a later read of that key finds.
pub proof fn law_cache_read_after_write(store: Map<Seq<char>, Seq<char>>, id: i32, serialized: Seq<char>, seconds: u64)
    ensures
        apply_ops(store, seq![KvOp::Put(user_reduced_key_spec(id as int), serialized, seconds)]).contains_key(user_reduced_key_spec(id as int)),
        apply_ops(store, seq![KvOp::Put(user_reduced_key_spec(id as int), serialized, seconds)])[user_reduced_key_spec(id as int)] == serialized,
{
    let ops = seq![KvOp::Put(user_reduced_key_spec(id as int), serialized, seconds)];
    let s1 = apply_op(store, ops[0]);
    assert(ops.drop_first() =~= Seq::<KvOp>::empty());
    assert(apply_ops(s1, ops.drop_first()) == s1);
    assert(apply_ops(store, ops) == s1);
}

/// The three key families never meet: caching a reduced user never touches a
/// session, and the two halves of a session never overwrite each other.
pub proof fn law_key_families_disjoint(id: int, user_id: Seq<char>, token: Seq<char>)
    ensures
        user_reduced_key_spec(id) != user_token_key_spec(user_id),
        user_reduced_key_spec(id) != token_key_spec(token),
        user_token_key_spec(user_id) != token_key_spec(token),
{
    reveal_strlit("user_reduced:");
    reveal_strlit("user:");
    reveal_strlit(":token");
    reveal_strlit("token:");
    assert(user_reduced_key_spec(id)[4] == '_');
    assert(user_token_key_spec(user_id)[4] == ':');
    assert(user_reduced_key_spec(id)[0] == 'u');
    assert(user_token_key_spec(user_id)[0] == 'u');
    assert(token_key_spec(token)[0] == 't');
}

/// Distinct user ids have distinct cache keys.
pub proof fn law_user_reduced_key_injective(a: i32, b: i32)
    requires
        user_reduced_key_spec(a as int) == user_reduced_key_spec(b as int),
    ensures
        a == b,
{
    let p = "user_reduced:"@;
    assert(decimal(a as int) =~= user_reduced_key_spec(a as int).skip(p.len() as int));
    assert(decimal(b as int) =~= user_reduced_key_spec(b as int).skip(p.len() as int));
    crate::utils::text::law_decimal_injective(a, b);
}

/// After a session is stored, looking the token up gives the user and looking
/// the user up gives the token, whatever the store held before.
pub proof fn law_store_then_lookup(
    store: Map<Seq<char>, Seq<char>>,
    user_id: Seq<char>,
    token: Seq<char>,
    expire_seconds: Option<u64>,
)
    ensures
        apply_ops(store, store_user_token_ops(user_id, token, expire_seconds)).contains_key(
            token_key_spec(token),
        ),
        apply_ops(store, store_user_token_ops(user_id, token, expire_seconds))[token_key_spec(
            token,
        )] == user_id,
        apply_ops(store, store_user_token_ops(user_id, token, expire_seconds)).contains_key(
            user_token_key_spec(user_id),
        ),
        apply_ops(store, store_user_token_ops(user_id, token, expire_seconds))[user_token_key_spec(
            user_id,
        )] == token,
{
    let ops = store_user_token_ops(user_id, token, expire_seconds);
    law_key_families_disjoint(0, user_id, token);
    let s1 = apply_op(store, ops[0]);
    let s2 = apply_op(s1, ops[1]);
    assert(ops.drop_first().drop_first() =~= Seq::<KvOp>::empty());
    assert(apply_ops(s1, ops.drop_first()) == apply_ops(s2, ops.drop_first().drop_first()));
}

/// The token the store holds for `user_id`, if any.
pub open spec fn current_token(store: Map<Seq<char>, Seq<char>>, user_id: Seq<char>) -> Option<Seq<char>> {
    if store.contains_key(user_token_key_spec(user_id)) {
        Some(store[user_token_key_spec(user_id)])
    } else {
        None
    }
}

/// Ending a session, with the token read from the store just before, leaves
/// neither the user's key nor that token's key behind; every other key keeps
/// its value.
pub proof fn law_remove_clears_session(store: Map<Seq<char>, Seq<char>>, user_id: Seq<char>, current: Option<Seq<char>>)
    requires
        current == current_token(store, user_id),
    ensures
        !apply_ops(store, remove_user_token_ops(user_id, current)).contains_key(user_token_key_spec(user_id)),
        current matches Some(t) ==> !apply_ops(store, remove_user_token_ops(user_id, current)).contains_key(token_key_spec(t)),
        forall|k: Seq<char>|
            k != user_token_key_spec(user_id) && !(current matches Some(t) && k == token_key_spec(t))
                && store.contains_key(k) ==> #[trigger] apply_ops(store, remove_user_token_ops(user_id, current)).contains_key(k)
                && apply_ops(store, remove_user_token_ops(user_id, current))[k] == store[k],
{
    let uk = user_token_key_spec(user_id);
    let ops = remove_user_token_ops(user_id, current);
    match current {
        Some(t) => {
            let s1 = apply_op(store, ops[0]);
            let s2 = apply_op(s1, ops[1]);
            assert(ops.drop_first().drop_first() =~= Seq::<KvOp>::empty());
            assert(apply_ops(s1, ops.drop_first()) == apply_ops(s2, ops.drop_first().drop_first()));
            assert(apply_ops(store, ops) == s2);
        },
        None => {
            let s1 = apply_op(store, ops[0]);
            assert(ops.drop_first() =~= Seq::<KvOp>::empty());
            assert(apply_ops(s1, ops.drop_first()) == s1);
            assert(apply_ops(store, ops) == s1);
        },
    }
}

} // verus!
