//! The repository configuration that the server is started with.

use vstd::prelude::*;
use crate::owner::Owner;

verus! {

/// Repository configuration: display metadata, roots and cache policy.
#[derive(Debug)]
pub struct Config {
    /// The repository's name.
    pub name: String,
    /// The icon representing the repository.
    pub icon: String,
    /// The repository's UUID, as a 128-bit integer.
    pub uuid: u128,
    /// A URL or e-mail address to contact the maintainers.
    pub contact: String,
    /// The address to bind to.
    pub addr: String,
    /// The root directories, in scan order.
    pub root: Vec<String>,
    /// Seconds a built manifest stays valid; `None` rebuilds on every request.
    pub max_age: Option<u64>,
    /// The repository's owners.
    pub owners: Vec<Owner>,
    /// Path of the account file; when set, file routes ask for credentials.
    pub htpasswd: Option<String>,
    /// Path of the artist registry, if not the default one.
    pub artists: Option<String>,
}

} // verus!
