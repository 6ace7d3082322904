//! Accounts: credentials at login, the session hash of a logged-in user, the
//! pending registrations awaiting e-mail verification, and the reduced user.
use vstd::prelude::*;
use vstd::hash_map::StringHashMap;
use crate::email::EmailVerificationRequest;
use crate::rds_mutate::{store_user_token, store_user_token_ops, KvCommand, op_views, apply_ops, token_key_spec, user_token_key_spec};
use crate::status::ApiStatus;
use crate::utils::text::{decimal, i32_to_decimal, parse_i32_spec};

verus! {

/// A registered user as stored in the database.
pub struct CurrentUser {
    pub id: i32,
    pub name: String,
    pub email: String,
    pub password: String,
    pub created_at: chrono::NaiveDateTime,
}

/// The details of a user who asks to register.
pub struct NewCurrentUser {
    pub name: String,
    pub email: String,
    pub password: String,
}

impl Clone for NewCurrentUser {
    fn clone(&self) -> (r: Self)
        ensures
            r == *self,
    {
        NewCurrentUser {
            name: self.name.clone(),
            email: self.email.clone(),
            password: self.password.clone(),
        }
    }
}

/// The public part of a user: id and name.
pub struct UserReduced {
    pub id: i32,
    pub name: String,
}

impl From<CurrentUser> for UserReduced {
    fn from(user: CurrentUser) -> (r: Self) {
        UserReduced { id: user.id, name: user.name }
    }
}

impl vstd::std_specs::convert::FromSpecImpl<CurrentUser> for UserReduced {
    open spec fn obeys_from_spec() -> bool {
        true
    }

    open spec fn from_spec(v: CurrentUser) -> UserReduced {
        UserReduced { id: v.id, name: v.name }
    }
}

/// The credentials of a login request.
pub struct LoginData {
    pub email: String,
    pub password: String,
}

impl Clone for LoginData {
    fn clone(&self) -> (r: Self)
        ensures
            r == *self,
    {
        LoginData { email: self.email.clone(), password: self.password.clone() }
    }
}

/// The answer to a successful login: the user's session hash.
pub struct LoginResponse {
    pub hash: String,
}

/// Checks a login against the user found by e-mail: `Unauthorized` when there
/// is none or the password differs, else the user's id.
pub fn verify_credentials(user: Option<&CurrentUser>, password: &String) -> (r: Result<i32, ApiStatus>)
    ensures
        match user {
            None => r == Err::<i32, ApiStatus>(ApiStatus::Unauthorized),
            Some(u) => if u.password@ == password@ {
                r == Ok::<i32, ApiStatus>(u.id)
            } else {
                r == Err::<i32, ApiStatus>(ApiStatus::Unauthorized)
            },
        },
{
    match user {
        None => Err(ApiStatus::Unauthorized),
        Some(u) => {
            if u.password.eq(password) {
                Ok(u.id)
            } else {
                Err(ApiStatus::Unauthorized)
            }
        },
    }
}

/// The text from which a user's session hash is derived: `econ_<user_id>`.
pub open spec fn user_hash_seed_spec(user_id: i32) -> Seq<char> {
    "econ_"@ + decimal(user_id as int)
}

/// The text from which a user's session hash is derived: `econ_<user_id>`.
pub fn user_hash_seed(user_id: i32) -> (r: String)
    ensures
        r@ == user_hash_seed_spec(user_id),
{
    let digits = i32_to_decimal(user_id);
    let mut r = String::new();
    r.append("econ_");
    r.append(digits.as_str());
    r
}

/// What to do about a user's session hash after reading the session store.
pub enum UserHashStep {
    /// The user has a live session: answer with its hash.
    Found(String),
    /// No session: derive a hash from `seed`, then store it.
    Create { seed: String },
}

/// Given the token the session store holds for `user_id` (if any), either
/// reuse it or ask for a new hash derived from the user's seed.
pub fn find_or_add_user_hash(user_id: i32, cached: Option<String>) -> (r: UserHashStep)
    ensures
        match cached {
            Some(t) => r matches UserHashStep::Found(h) && h@ == t@,
            None => r matches UserHashStep::Create { seed } && seed@ == user_hash_seed_spec(user_id),
        },
{
    match cached {
        Some(t) => UserHashStep::Found(t),
        None => UserHashStep::Create { seed: user_hash_seed(user_id) },
    }
}

/// The writes that open a session with `hash` for `user_id`, for one day.
pub fn record_user_hash(user_id: i32, hash: &str) -> (r: Vec<KvCommand>)
    ensures
        op_views(r@) == store_user_token_ops(decimal(user_id as int), hash@, Some(86400u64)),
{
    let id_text = i32_to_decimal(user_id);
    store_user_token(id_text.as_str(), hash, Some(86400))
}

/// A session opened for a user resolves back to that user: the store then maps
/// the hash to text that parses as the user's id.
pub proof fn law_session_resolves_to_user(store: Map<Seq<char>, Seq<char>>, user_id: i32, hash: Seq<char>)
    ensures
        ({
            let after = apply_ops(store, store_user_token_ops(decimal(user_id as int), hash, Some(86400u64)));
            &&& after.contains_key(token_key_spec(hash))
            &&& parse_i32_spec(after[token_key_spec(hash)]) == Some(user_id)
            &&& after[user_token_key_spec(decimal(user_id as int))] == hash
        }),
{
    crate::rds_mutate::law_store_then_lookup(store, decimal(user_id as int), hash, Some(86400u64));
    crate::utils::text::law_parse_decimal_roundtrip(user_id);
}

/// Whether a new account may be created: not when a user with the same e-mail
/// already exists (`BadRequest`).
pub fn new_user_admission(existing: Option<&CurrentUser>) -> (r: Result<(), ApiStatus>)
    ensures
        r == (if existing is Some {
            Err::<(), ApiStatus>(ApiStatus::BadRequest)
        } else {
            Ok::<(), ApiStatus>(())
        }),
{
    match existing {
        Some(_) => Err(ApiStatus::BadRequest),
        None => Ok(()),
    }
}

/// The reduced form of the user found by id: `NotFound` when there is none.
pub fn get_user_reduced_from_db(user: Option<CurrentUser>) -> (r: Result<UserReduced, ApiStatus>)
    ensures
        match user {
            Some(u) => r matches Ok(ur) && ur.id == u.id && ur.name == u.name,
            None => r == Err::<UserReduced, ApiStatus>(ApiStatus::NotFound),
        },
{
    match user {
        Some(u) => Ok(UserReduced::from(u)),
        None => Err(ApiStatus::NotFound),
    }
}

/// Where the reduced user comes from.
pub enum UserReducedSource {
    /// The cache held it.
    Cache(UserReduced),
    /// The cache missed: read the database, then cache what it returns.
    Database,
}

/// A cache hit is answered from the cache; a miss goes to the database.
pub fn get_user_reduced(cached: Option<UserReduced>) -> (r: UserReducedSource)
    ensures
        match cached {
            Some(u) => r matches UserReducedSource::Cache(v) && v == u,
            None => r matches UserReducedSource::Database,
        },
{
    match cached {
        Some(u) => UserReducedSource::Cache(u),
        None => UserReducedSource::Database,
    }
}

/// The page shown once an e-mail address is verified and the account created.
pub fn email_verified_page() -> (r: String)
    ensures
        r@ == "\n            <html>\n                <body>\n                    <h2>Email Verified</h2>\n                    <p>Your email has been verified successfully. You can now login to your account.</p>\n                </body>\n            </html>\n            "@,
{
    "\n            <html>\n                <body>\n                    <h2>Email Verified</h2>\n                    <p>Your email has been verified successfully. You can now login to your account.</p>\n                </body>\n            </html>\n            ".to_owned()
}

/// One account per e-mail address: when the stored addresses are distinct and
/// a new account is admitted (the lookup by its address found no user), they
/// stay distinct after it is added.
pub proof fn law_one_account_per_email(emails: Seq<Seq<char>>, email: Seq<char>, existing: Option<CurrentUser>)
    requires
        emails.no_duplicates(),
        existing is Some <==> emails.contains(email),
        existing is None,
    ensures
        emails.push(email).no_duplicates(),
{
    let s = emails.push(email);
    assert forall|i: int, j: int| 0 <= i < s.len() && 0 <= j < s.len() && i != j implies s[i] != s[j] by {
        if i == s.len() - 1 {
            assert(s[j] == emails[j]);
        } else if j == s.len() - 1 {
            assert(s[i] == emails[i]);
        } else {
            assert(s[i] == emails[i] && s[j] == emails[j]);
        }
    }
}

/// Registrations awaiting e-mail verification, by verification token.
pub struct VerificationTokens {
    tokens: StringHashMap<NewCurrentUser>,
}

impl View for VerificationTokens {
    type V = Map<Seq<char>, NewCurrentUser>;

    closed spec fn view(&self) -> Self::V {
        self.tokens@
    }
}

impl VerificationTokens {
    /// No pending registration.
    pub fn new() -> (r: Self)
        ensures
            r@ == Map::<Seq<char>, NewCurrentUser>::empty(),
    {
        VerificationTokens { tokens: StringHashMap::new() }
    }

    /// Records `user` as awaiting verification under `token`.
    pub fn insert(&mut self, token: String, user: NewCurrentUser)
        ensures
            final(self)@ == old(self)@.insert(token@, user),
    {
        self.tokens.insert(token, user);
    }

    /// Removes and returns the registration pending under `token`, if any.
    pub fn take(&mut self, token: &str) -> (r: Option<NewCurrentUser>)
        ensures
            match r {
                Some(u) => old(self)@.contains_key(token@) && u == old(self)@[token@],
                None => !old(self)@.contains_key(token@),
            },
            final(self)@ == old(self)@.remove(token@),
    {
        let found = match self.tokens.get(token) {
            Some(u) => Some(u.clone()),
            None => None,
        };
        self.tokens.remove(token);
        found
    }
}

/// The e-mail verification request sent for a registration under `token`.
pub fn registration_request(user: &NewCurrentUser, token: &String) -> (r: EmailVerificationRequest)
    ensures
        r.name == user.name,
        r.email == user.email,
        r.password == user.password,
        r.token == *token,
{
    EmailVerificationRequest {
        name: user.name.clone(),
        email: user.email.clone(),
        password: user.password.clone(),
        token: token.clone(),
    }
}

/// Finishes a registration once the verification e-mail was attempted: when
/// it could not be sent the answer is `InternalServerError` and nothing is
/// kept; otherwise the user is kept under `token` and the answer is `Success`.
pub fn user_registor(store: &mut VerificationTokens, token: String, user: NewCurrentUser, email_sent: bool) -> (r: ApiStatus)
    ensures
        email_sent ==> r == ApiStatus::Success && final(store)@ == old(store)@.insert(token@, user),
        !email_sent ==> r == ApiStatus::InternalServerError && final(store)@ == old(store)@,
{
    if !email_sent {
        return ApiStatus::InternalServerError;
    }
    store.insert(token, user);
    ApiStatus::Success
}

/// Claims the registration pending under `token` for account creation:
/// `NotFound` when there is none. A token can be claimed once.
pub fn user_verify_email(store: &mut VerificationTokens, token: &str) -> (r: Result<NewCurrentUser, ApiStatus>)
    ensures
        match r {
            Ok(u) => old(store)@.contains_key(token@) && u == old(store)@[token@],
            Err(e) => e == ApiStatus::NotFound && !old(store)@.contains_key(token@),
        },
        final(store)@ == old(store)@.remove(token@),
{
    match store.take(token) {
        Some(u) => Ok(u),
        None => Err(ApiStatus::NotFound),
    }
}

/// A registration kept under a token is what verifying that token yields, and
/// afterwards the token is spent: verifying it again is answered `NotFound`.
pub proof fn law_register_then_verify(pending: Map<Seq<char>, NewCurrentUser>, token: Seq<char>, user: NewCurrentUser)
    ensures
        pending.insert(token, user).contains_key(token),
        pending.insert(token, user)[token] == user,
        !pending.insert(token, user).remove(token).contains_key(token),
{
}

} // verus!
