//! Researcher profiles fetched from the Google Scholar service, and how a
//! profile becomes a researcher card.
use vstd::prelude::*;
use crate::status::ApiStatus;
use crate::utils::text::concat3;

verus! {

/// A researcher profile as the scholar service returns it.
pub struct GoogleScholar {
    pub affiliation: String,
    pub citedby: i32,
    pub container_type: String,
    pub coauthors: Vec<String>,
    pub email_domain: String,
    pub filled: Vec<String>,
    pub interests: Vec<String>,
    pub name: String,
    pub organization: i128,
    pub publications: Vec<PublicationNoFilled>,
    pub scholar_id: String,
    pub source: String,
}

/// A profile with its publications reduced to their ids.
pub struct GoogleScholarPubListed {
    pub affiliation: String,
    pub citedby: i32,
    pub coauthors: Vec<String>,
    pub email_domain: String,
    pub interests: Vec<String>,
    pub name: String,
    pub publications: Vec<String>,
    pub google_scholar_id: String,
}

/// A publication as listed in a profile.
pub struct PublicationNoFilled {
    pub author_pub_id: String,
    pub bib: BibNoFilled,
    pub citedby_url: String,
    pub cites_id: Vec<String>,
    pub container_type: String,
    pub filled: bool,
    pub num_citations: i32,
    pub source: String,
}

/// The bibliographic summary of a listed publication.
pub struct BibNoFilled {
    pub citation: String,
    pub pub_year: String,
    pub title: String,
}

impl PublicationNoFilled {
    /// The publication's id.
    pub fn get_author_pub_id(self) -> (r: String)
        ensures
            r == self.author_pub_id,
    {
        self.author_pub_id
    }
}

impl GoogleScholarPubListed {
    /// The profile with each publication replaced by its id, in the same order;
    /// the other fields are kept.
    pub fn from_google_scholar(google_scholar: GoogleScholar) -> (r: GoogleScholarPubListed)
        ensures
            r.affiliation == google_scholar.affiliation,
            r.citedby == google_scholar.citedby,
            r.coauthors == google_scholar.coauthors,
            r.email_domain == google_scholar.email_domain,
            r.interests == google_scholar.interests,
            r.name == google_scholar.name,
            r.google_scholar_id == google_scholar.scholar_id,
            r.publications@ == google_scholar.publications@.map_values(
                |p: PublicationNoFilled| p.author_pub_id,
            ),
    {
        let ghost pubs = google_scholar.publications@;
        let mut rest = google_scholar.publications;
        let mut publication_ids: Vec<String> = Vec::new();
        while rest.len() > 0
            invariant
                rest@ == pubs.take(rest@.len() as int),
                rest@.len() <= pubs.len(),
                publication_ids@ == pubs.skip(rest@.len() as int).map_values(
                    |p: PublicationNoFilled| p.author_pub_id,
                ),
            decreases rest@.len(),
        {
            let ghost before = rest@.len();
            let publication = rest.pop().unwrap();
            assert(publication == pubs[before - 1]);
            publication_ids.insert(0, publication.get_author_pub_id());
            assert(rest@ =~= pubs.take(rest@.len() as int));
            assert(publication_ids@ =~= pubs.skip(rest@.len() as int).map_values(
                |p: PublicationNoFilled| p.author_pub_id,
            ));
        }
        assert(pubs.skip(0) =~= pubs);
        GoogleScholarPubListed {
            affiliation: google_scholar.affiliation,
            citedby: google_scholar.citedby,
            coauthors: google_scholar.coauthors,
            email_domain: google_scholar.email_domain,
            interests: google_scholar.interests,
            name: google_scholar.name,
            publications: publication_ids,
            google_scholar_id: google_scholar.scholar_id,
        }
    }
}

/// The scholar service's address of an author: `<api>/author/<scholar_id>`.
pub fn author_url(api_url: &str, scholar_id: &str) -> (r: String)
    ensures
        r@ == api_url@ + "/author/"@ + scholar_id@,
{
    concat3(api_url, "/author/", scholar_id)
}

/// The scholar service's address of a publication:
/// `<api>/author/<scholar_id>/publication/<publication_id>`.
pub fn publication_url(api_url: &str, scholar_id: &str, publication_id: &str) -> (r: String)
    ensures
        r@ == api_url@ + "/author/"@ + scholar_id@ + "/publication/"@ + publication_id@,
{
    let head = author_url(api_url, scholar_id);
    let r = concat3(head.as_str(), "/publication/", publication_id);
    assert(r@ =~= api_url@ + "/author/"@ + scholar_id@ + "/publication/"@ + publication_id@);
    r
}

/// How an answer of the scholar service is relayed: a success status means the
/// body is read as the expected JSON (`None`); any other status relays the
/// body's text under `NotFound`.
pub fn scholar_reply_status(success: bool) -> (r: Option<ApiStatus>)
    ensures
        r == (if success {
            None::<ApiStatus>
        } else {
            Some(ApiStatus::NotFound)
        }),
{
    if success {
        None
    } else {
        Some(ApiStatus::NotFound)
    }
}

/// The profile to refresh a card from: the fetched profile, or `NotFound` when
/// the scholar service's answer was relayed instead (`None`).
pub fn scholar_profile(fetched: Option<GoogleScholar>) -> (r: Result<GoogleScholar, ApiStatus>)
    ensures
        match fetched {
            Some(p) => r == Ok::<GoogleScholar, ApiStatus>(p),
            None => r == Err::<GoogleScholar, ApiStatus>(ApiStatus::NotFound),
        },
{
    match fetched {
        Some(p) => Ok(p),
        None => Err(ApiStatus::NotFound),
    }
}

/// What looking up a researcher card by Google Scholar id came to.
pub enum CardLookup {
    /// A card with this id exists.
    Found(i32),
    /// No card has this Google Scholar id.
    Missing,
    /// The lookup itself failed.
    Failed,
}

/// What refreshing a researcher from Google Scholar does with the card.
pub enum ScholarUpdate {
    /// Overwrite the existing card with this id.
    UpdateExisting(i32),
    /// Create a new card.
    CreateNew,
}

/// An existing card is updated, a missing one is created, and a failed
/// lookup is answered `InternalServerError`.
pub fn scholar_update_step(lookup: CardLookup) -> (r: Result<ScholarUpdate, ApiStatus>)
    ensures
        match lookup {
            CardLookup::Found(id) => r matches Ok(ScholarUpdate::UpdateExisting(i)) && i == id,
            CardLookup::Missing => r matches Ok(ScholarUpdate::CreateNew),
            CardLookup::Failed => r == Err::<ScholarUpdate, ApiStatus>(ApiStatus::InternalServerError),
        },
{
    match lookup {
        CardLookup::Found(id) => Ok(ScholarUpdate::UpdateExisting(id)),
        CardLookup::Missing => Ok(ScholarUpdate::CreateNew),
        CardLookup::Failed => Err(ApiStatus::InternalServerError),
    }
}

} // verus!
