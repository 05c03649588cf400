//! A minimal URL shortener: short codes that stand for full URLs, a table of
//! such links, and the three operations on it (create, resolve, delete) with
//! the responses they give.

pub mod handlers;
pub mod ident;
pub mod laws;
pub mod link;
pub mod response;
pub mod router;
pub mod sql;
pub mod store;
