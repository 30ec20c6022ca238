//! Bodies of replies to clients.

use vstd::prelude::*;
use crate::models::UserInfo;

verus! {

/// Reply to a sign-up request.
pub struct SignupModel {
    pub success: bool,
    pub message: String,
}

/// Reply to a sign-in request.
pub struct SigninModel {
    pub success: bool,
    pub username: String,
    pub info: UserInfo,
    pub message: String,
}

/// Reply to a sign-out request.
pub struct SignoutModel {
    pub success: bool,
}

/// Reply to a request that asks whether the client is signed in.
pub struct IsSignedinModel {
    pub success: bool,
    pub username: Option<String>,
    pub message: String,
}

/// Reply to a request to add a contact.
pub struct AddContactModel {
    pub success: bool,
    pub message: String,
}

} // verus!
