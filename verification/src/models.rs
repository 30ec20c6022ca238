//! The records exchanged with clients and stored in the database.

pub mod mongodb_models;
pub mod request_models;
pub mod response_models;
pub mod ws_models;

use vstd::prelude::*;

verus! {

/// What a sign-in reply tells about the user: the user names in their
/// contact list, once they have signed in.
pub struct UserInfo {
    pub contacts: Option<Vec<String>>,
}

} // verus!
