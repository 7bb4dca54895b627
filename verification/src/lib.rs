//! A small credential-management core: it registers user accounts and
//! authenticates login attempts against the stored credentials.
//!
//! Credentials are checked by [`validation::validate_credentials`], secrets are
//! hashed behind the [`domain::Hasher`] capability, records are kept behind the
//! [`domain::UserStore`] capability, and [`domain::Service`] composes the three.

pub mod validation;
pub mod domain;
pub mod bcrypt_hasher;
pub mod inmem_user_store;
pub mod user_store;
pub mod laws;
pub mod server;
