//! The decisions behind each route, written as state machines: a flow
//! starts from the request and, fed the outcome of each action it asks
//! for (a database query, a call to the identity provider, a new token),
//! says what to do next, until it produces the reply.

pub mod signup;
pub mod signin;
pub mod is_signedin;
pub mod add_contact;
pub mod ws;
