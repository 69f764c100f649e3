//! A small credentialed document server, as a verified library.
//!
//! Users authenticate against a credential store, receive a signed privilege
//! token, and that token gates which sections of a document they may see.
//! All access to the store goes through a single-writer request queue.

pub mod clock;
pub mod password;
pub mod policy;
pub mod text;
pub mod user;
pub mod db;
pub mod docs;
