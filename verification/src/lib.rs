//! The credential, session and authorization core of a marketplace in which
//! independent shops sell products to authenticated users.
//!
//! Passwords become salted, memory-hard hash records ([`vault`]). A
//! successful login becomes a session with an unguessable bearer token
//! ([`token`]) in the [`registry`], from which it can be revoked. A token is
//! resolved back to the user behind it on every request ([`identity`]),
//! against the [`database`] of users and sessions. Every operation that
//! concerns a resource is checked against one ownership rule ([`policy`]):
//! an administrator may do anything, anyone else only what concerns what is
//! their own. The [`routes`] apply that rule to what each endpoint is asked
//! to do with the records of the [`schema`].
//!
//! Time is read from a clock that the caller moves: the stores stamp what
//! they do with its reading, and it never runs backwards.

mod clock;
pub mod database;
pub mod error;
pub mod identity;
pub mod policy;
pub mod registry;
pub mod routes;
pub mod schema;
pub mod text;
pub mod token;
pub mod vault;

pub use database::Database;
pub use error::{Cause, Error, ErrorBuilder, ErrorKind, Result};
pub use identity::resolve_identity;
pub use policy::{authorize, Action, Decision, OwnerDescriptor};
pub use registry::{Session, SessionRegistry};
pub use token::UserToken;
