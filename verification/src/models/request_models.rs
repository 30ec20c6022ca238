//! Bodies of client requests.

use vstd::prelude::*;

verus! {

/// Body of a sign-up request.
pub struct SignupModel {
    pub email: String,
    pub password: String,
    pub username: String,
}

/// Body of a sign-in request.
pub struct SigninModel {
    pub email: String,
    pub password: String,
}

/// Body of a request to add a contact: the contact's user name.
pub struct AddContactModel {
    pub username: String,
}

} // verus!
