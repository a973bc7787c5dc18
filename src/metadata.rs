//! The metadata descriptor that each album directory holds.

use vstd::prelude::*;
use crate::album::Album;

verus! {

/// The content of an album's metadata descriptor.
#[derive(Debug)]
pub struct Metadata {
    /// The album's name.
    pub name: String,
    /// The asset key of the album's cover art.
    pub cover: String,
    /// The UUIDs of the album's artists, as 128-bit integers.
    pub artists: Vec<u128>,
}

impl Metadata {
    /// Creates metadata from a name, a cover key and artist UUIDs.
    pub fn new(name: String, cover: String, artists: Vec<u128>) -> (r: Metadata)
        ensures
            r.name == name,
            r.cover == cover,
            r.artists == artists,
    {
        Metadata { name, cover, artists }
    }
}

impl From<Album> for Metadata {
    fn from(x: Album) -> (r: Metadata) {
        Metadata { name: x.name, cover: x.cover, artists: x.artists }
    }
}

impl vstd::std_specs::convert::FromSpecImpl<Album> for Metadata {
    open spec fn obeys_from_spec() -> bool {
        true
    }

    open spec fn from_spec(x: Album) -> Metadata {
        Metadata { name: x.name, cover: x.cover, artists: x.artists }
    }
}

impl PartialEq for Metadata {
    /// Descriptors are equal when they name the same album with the same
    /// cover; the artist lists are not compared.
    fn eq(&self, other: &Metadata) -> (r: bool) {
        self.name == other.name && self.cover == other.cover
    }
}

impl vstd::std_specs::cmp::PartialEqSpecImpl for Metadata {
    open spec fn obeys_eq_spec() -> bool {
        true
    }

    open spec fn eq_spec(&self, other: &Metadata) -> bool {
        self.name@ == other.name@ && self.cover@ == other.cover@
    }
}

} // verus!
