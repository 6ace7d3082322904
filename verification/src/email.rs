//! The verification e-mail sent on registration.
use vstd::prelude::*;
use crate::utils::text::concat3;

verus! {

/// What the verification mail is about: the registering user and the token.
pub struct EmailVerificationRequest {
    pub name: String,
    pub email: String,
    pub password: String,
    pub token: String,
}

/// The answer to a registration request.
pub struct EmailVerificationResponse {
    pub message: String,
}

/// The base address of links when `BASE_URL` is not set.
pub open spec fn default_base_url() -> Seq<char> {
    "http://localhost:8000"@
}

/// The link that verifies `token`: `<base>/api/verify-email/<token>`, where the
/// base is `base_url` or, when unset, `http://localhost:8000`.
pub open spec fn verification_url_spec(base_url: Option<Seq<char>>, token: Seq<char>) -> Seq<char> {
    let base = match base_url {
        Some(b) => b,
        None => default_base_url(),
    };
    base + "/api/verify-email/"@ + token
}

/// The link that verifies `token`, under the base address `base_url` (the
/// value of `BASE_URL`, if set).
pub fn verification_url(base_url: Option<String>, token: &str) -> (r: String)
    ensures
        r@ == verification_url_spec(
            match base_url {
                Some(b) => Some(b@),
                None => None,
            },
            token@,
        ),
{
    match base_url {
        Some(b) => concat3(b.as_str(), "/api/verify-email/", token),
        None => concat3("http://localhost:8000", "/api/verify-email/", token),
    }
}

/// The subject line of the verification mail.
pub fn verification_subject() -> (r: &'static str)
    ensures
        r@ == "Verify your email"@,
{
    "Verify your email"
}

} // verus!
