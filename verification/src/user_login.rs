//! Registration by e-mail verification and login with a fresh token.
use vstd::prelude::*;
use crate::status::ApiStatus;
use crate::user_mutate::{verify_credentials, CurrentUser, NewCurrentUser, VerificationTokens};
use crate::utils::text::{concat3, parse_u16, parse_u16_spec};
use crate::utils::token::{generate_token, is_uuid_v4_text, new_uuid_v4_text};

verus! {

/// A registration request.
pub struct EmailVerificationRequest {
    pub name: String,
    pub email: String,
    pub password: String,
}

/// The answer to a registration request.
pub struct EmailVerificationResponse {
    pub message: String,
}

/// The answer to a login: a fresh token.
pub struct LoginResponse {
    pub token: String,
}

/// Where and as whom verification mail is sent.
pub struct SmtpSettings {
    pub server: String,
    pub port: u16,
    pub username: String,
    pub password: String,
    pub from_email: String,
}

/// Opens a registration: a fresh random token, under which the user's details
/// are kept until the address is verified. Returns the token.
pub fn start_email_verification(store: &mut VerificationTokens, user_data: &EmailVerificationRequest) -> (r: String)
    ensures
        is_uuid_v4_text(r@),
        final(store)@ == old(store)@.insert(r@, NewCurrentUser {
            name: user_data.name,
            email: user_data.email,
            password: user_data.password,
        }),
{
    let token = new_uuid_v4_text();
    let new_user = NewCurrentUser {
        name: user_data.name.clone(),
        email: user_data.email.clone(),
        password: user_data.password.clone(),
    };
    store.insert(token.clone(), new_user);
    token
}

/// The mail settings from the environment: the server defaults to
/// `smtp.gmail.com`, the port to 587 (also when it is not a number), and the
/// sender to the user name.
pub fn smtp_settings(
    server: Option<String>,
    port: Option<String>,
    username: String,
    password: String,
    from_email: Option<String>,
) -> (r: SmtpSettings)
    ensures
        r.server@ == match server {
            Some(s) => s@,
            None => "smtp.gmail.com"@,
        },
        r.port == match port {
            Some(p) => match parse_u16_spec(p@) {
                Some(n) => n,
                None => 587u16,
            },
            None => 587u16,
        },
        r.username == username,
        r.password == password,
        r.from_email@ == match from_email {
            Some(f) => f@,
            None => username@,
        },
{
    let server = match server {
        Some(s) => s,
        None => "smtp.gmail.com".to_owned(),
    };
    let port_number: u16 = match port {
        Some(p) => match parse_u16(p.as_str()) {
            Some(n) => n,
            None => 587,
        },
        None => 587,
    };
    let from_email = match from_email {
        Some(f) => f,
        None => username.clone(),
    };
    SmtpSettings { server, port: port_number, username, password, from_email }
}

/// The HTML body of the verification mail, linking to `verification_url`.
pub fn verification_email_body(verification_url: &str) -> (r: String)
    ensures
        r@ == "\n            <html>\n                <body>\n                    <h2>Verify Your Email</h2>\n                    <p>Thank you for registering! Please click the link below to verify your email address:</p>\n                    <p><a href=\""@ + verification_url@ + "\">Verify Email</a></p>\n                    <p>If you didn't request this, please ignore this email.</p>\n                </body>\n            </html>\n            "@,
{
    concat3("\n            <html>\n                <body>\n                    <h2>Verify Your Email</h2>\n                    <p>Thank you for registering! Please click the link below to verify your email address:</p>\n                    <p><a href=\"", verification_url, "\">Verify Email</a></p>\n                    <p>If you didn't request this, please ignore this email.</p>\n                </body>\n            </html>\n            ")
}

/// The answer once the verification mail is sent.
pub fn verification_sent_response() -> (r: EmailVerificationResponse)
    ensures
        r.message@ == "Verification email sent. Please check your inbox."@,
{
    EmailVerificationResponse { message: "Verification email sent. Please check your inbox.".to_owned() }
}

/// Claims the registration pending under `token`: `NotFound` when there is none.
pub fn verify_email(store: &mut VerificationTokens, token: &str) -> (r: Result<NewCurrentUser, ApiStatus>)
    ensures
        match r {
            Ok(u) => old(store)@.contains_key(token@) && u == old(store)@[token@],
            Err(e) => e == ApiStatus::NotFound && !old(store)@.contains_key(token@),
        },
        final(store)@ == old(store)@.remove(token@),
{
    crate::user_mutate::user_verify_email(store, token)
}

/// A login against the user found by e-mail: `Unauthorized` when there is none
/// or the password differs, else a fresh token.
pub fn user_login(user: Option<&CurrentUser>, password: &String) -> (r: Result<LoginResponse, ApiStatus>)
    ensures
        match user {
            None => r == Err::<LoginResponse, ApiStatus>(ApiStatus::Unauthorized),
            Some(u) => if u.password@ == password@ {
                r matches Ok(resp) && is_uuid_v4_text(resp.token@)
            } else {
                r == Err::<LoginResponse, ApiStatus>(ApiStatus::Unauthorized)
            },
        },
{
    match verify_credentials(user, password) {
        Ok(_) => Ok(LoginResponse { token: generate_token() }),
        Err(e) => Err(e),
    }
}

} // verus!
