//! Records of the users and sessions collections.

use vstd::prelude::*;

verus! {

/// A user as stored in the users collection.
pub struct MongoUser {
    pub email: String,
    pub username: String,
    pub signup_time_stamp: u32,
    pub contacts: Vec<String>,
    pub subscribers: Vec<String>,
}

/// The record stored for a user who has just signed up: the identity
/// provider's id for them, their e-mail and user name, the sign-up time
/// as decimal microseconds since the Unix epoch, and empty contact and
/// subscriber lists.
pub struct NewUserRecord {
    pub local_id: String,
    pub email: String,
    pub username: String,
    pub signup_time_stamp: String,
    pub contacts: Vec<String>,
    pub subscribers: Vec<String>,
}

/// A session as stored in the sessions collection: a token and the user
/// it signs in.
pub struct SessionRecord {
    pub token: String,
    pub username: String,
}

} // verus!
