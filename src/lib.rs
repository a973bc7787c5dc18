//! Index generation and conditional file serving for music repositories.
//!
//! The library walks snapshots of repository roots into a manifest, keeps a
//! manifest cache under a time-to-live policy, and prepares file responses
//! with content digests and conditional-request handling.

pub mod text;
pub mod digest;
pub mod error;
pub mod owner;
pub mod artist;
pub mod metadata;
pub mod config;
pub mod album;
pub mod hostinfo;
pub mod state;
pub mod http_date;
pub mod serving;
pub mod accounts;
pub mod database;
pub mod page;
pub mod account;
