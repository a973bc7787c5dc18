//! User records whose passwords are stored as Argon2 hashes.

pub mod user;
