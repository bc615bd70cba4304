//! Verified core of a small tipping service: users tip each other (or
//! "anti-tip"), an API key guards the write endpoints, and every HTTP
//! endpoint is described by the reply it produces for the facts it gathered.

pub mod models;
pub mod number;
pub mod pattern;
pub mod keys;
pub mod tip;
pub mod laws;
pub mod reply;
pub mod server;
