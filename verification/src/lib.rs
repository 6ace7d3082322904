//! Verified core of the community web service: the reply log format,
//! identifier generation, cache keys and the decisions behind each endpoint.
use vstd::prelude::*;

pub mod comm_type;
pub mod email;
pub mod google_scholar;
pub mod models;
pub mod rds_mutate;
pub mod researcher_card;
pub mod researcher_card_threads;
pub mod status;
pub mod threads;
pub mod user_login;
pub mod user_mutate;
pub mod utils;

verus! {

/// Body of the service's root route.
pub fn index() -> (r: &'static str)
    ensures
        r@ == "Community Web API"@,
{
    "Community Web API"
}

} // verus!
