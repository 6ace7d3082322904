//! The envelope of authenticated requests.
use vstd::prelude::*;

verus! {

/// A request's payload together with the session hash of the user who sent it.
pub struct CommInWrapper<T> {
    pub data: T,
    pub user_hash: String,
}

impl<T> CommInWrapper<T> {
    /// The sender's session hash.
    pub fn get_user_hash(&self) -> (r: &str)
        ensures
            r@ == self.user_hash@,
    {
        self.user_hash.as_str()
    }

    /// The payload.
    pub fn get_data(&self) -> (r: &T)
        ensures
            *r == self.data,
    {
        &self.data
    }
}

} // verus!
