//! Request handling: session tokens and the flows behind each route.

pub mod statics;
pub mod routing;
pub mod store_model;
