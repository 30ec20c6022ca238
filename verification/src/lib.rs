//! Verified core of a chat back end: session bookkeeping for live
//! sockets, token handling, and the request flows behind its HTTP routes.

pub mod text;
pub mod connection_manager;
pub mod functions;
pub mod models;
pub mod file_reader;
