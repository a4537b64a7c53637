//! A small URL shortener: a concurrent registry of slugs, each with a
//! destination and a visit counter, and the routing that turns a request
//! path into one of three operations on it.
pub mod decimal;
pub mod reply;
pub mod path;
pub mod record;
pub mod registry;
pub mod router;
