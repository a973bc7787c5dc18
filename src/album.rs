//! Albums, and locating an album or a file among directory listings.

use vstd::prelude::*;
use crate::error::ServeError;
use crate::metadata::Metadata;
use crate::text::str_eq;

verus! {

/// An album of the repository: a directory with metadata and member files.
#[derive(Debug)]
pub struct Album {
    /// The album's name.
    pub name: String,
    /// The asset key of the album's cover art.
    pub cover: String,
    /// The album's directory name, relative to its root.
    pub path: String,
    /// The UUIDs of the album's artists.
    pub artists: Vec<u128>,
    /// The names of the album's visible files.
    pub files: Vec<String>,
    /// The total size in bytes of the album's visible files.
    pub size: u128,
}

/// The model of an album.
pub struct AlbumView {
    pub name: Seq<char>,
    pub cover: Seq<char>,
    pub path: Seq<char>,
    pub artists: Seq<u128>,
    pub files: Seq<String>,
    pub size: int,
}

impl View for Album {
    type V = AlbumView;

    open spec fn view(&self) -> AlbumView {
        AlbumView {
            name: self.name@,
            cover: self.cover@,
            path: self.path@,
            artists: self.artists@,
            files: self.files@,
            size: self.size as int,
        }
    }
}

impl Clone for Album {
    fn clone(&self) -> (r: Self)
        ensures
            r@ == self@,
    {
        let artists = self.artists.clone();
        assert(artists@ =~= self.artists@);
        let files = self.files.clone();
        assert(files@ =~= self.files@);
        Album {
            name: self.name.clone(),
            cover: self.cover.clone(),
            path: self.path.clone(),
            artists,
            files,
            size: self.size,
        }
    }
}

/// One directory's entry names, or `None` where the directory could not be
/// read. An entry whose name is not valid Unicode is `None`.
pub type Listing = Option<Vec<Option<String>>>;

/// Whether entry `k` of `names` is called `name`.
pub open spec fn entry_named(names: Seq<Option<String>>, k: int, name: Seq<char>) -> bool {
    match names[k] {
        Some(s) => s@ == name,
        None => false,
    }
}

/// Whether no entry of `names` is called `name`.
pub open spec fn no_entry_named(names: Seq<Option<String>>, name: Seq<char>) -> bool {
    forall|k: int| 0 <= k < names.len() ==> !entry_named(names, k, name)
}

/// Finds the first entry called `name` in one directory listing.
/// Fails with `Io` where the directory was unreadable, and with `NotFound`
/// where no entry has that name.
pub fn find_entry(listing: &Listing, name: &String) -> (r: Result<usize, ServeError>)
    ensures
        match listing {
            None => r == Err::<usize, ServeError>(ServeError::Io),
            Some(names) => match r {
                Ok(k) => k < names@.len() && entry_named(names@, k as int, name@)
                    && no_entry_named(names@.subrange(0, k as int), name@),
                Err(e) => e == ServeError::NotFound && no_entry_named(names@, name@),
            },
        },
{
    match listing {
        None => Err(ServeError::Io),
        Some(names) => {
            let mut k: usize = 0;
            while k < names.len()
                invariant
                    *listing == Some(*names),
                    k <= names@.len(),
                    no_entry_named(names@.subrange(0, k as int), name@),
                decreases names@.len() - k,
            {
                let hit = match &names[k] {
                    Some(s) => str_eq(s.as_str(), name.as_str()),
                    None => false,
                };
                assert(hit == entry_named(names@, k as int, name@));
                if hit {
                    return Ok(k);
                }
                assert forall|j: int| 0 <= j < k + 1 implies !#[trigger] entry_named(
                    names@.subrange(0, k + 1),
                    j,
                    name@,
                ) by {
                    assert(names@.subrange(0, k + 1)[j] == names@[j]);
                    if j < k {
                        assert(names@.subrange(0, k as int)[j] == names@[j]);
                        assert(!entry_named(names@.subrange(0, k as int), j, name@));
                    }
                }
                k = k + 1;
            }
            assert(names@.subrange(0, k as int) =~= names@);
            Err(ServeError::NotFound)
        },
    }
}

impl Album {
    /// Creates an album from its parts.
    pub fn new(
        name: String,
        cover: String,
        path: String,
        artists: Vec<u128>,
        files: Vec<String>,
        size: u128,
    ) -> (r: Album)
        ensures
            r.name == name,
            r.cover == cover,
            r.path == path,
            r.artists == artists,
            r.files == files,
            r.size == size,
    {
        Album { name, cover, path, artists, files, size }
    }

    /// Locates the album directory called `name` across the roots' listings,
    /// in root order: the first root that has it wins. Returns the root's
    /// index and the entry's index within it. An unreadable root met before
    /// a match fails the lookup with `Io`; no match at all gives `NotFound`.
    pub fn find(roots: &Vec<Listing>, name: &String) -> (r: Result<(usize, usize), ServeError>)
        ensures
            match r {
                Ok((i, k)) => {
                    &&& i < roots@.len()
                    &&& roots@[i as int] is Some
                    &&& k < roots@[i as int]->0@.len()
                    &&& entry_named(roots@[i as int]->0@, k as int, name@)
                    &&& no_entry_named(roots@[i as int]->0@.subrange(0, k as int), name@)
                    &&& forall|j: int| 0 <= j < i ==> roots@[j] is Some && no_entry_named(roots@[j]->0@, name@)
                },
                Err(ServeError::Io) => exists|i: int| {
                    &&& 0 <= i < roots@.len()
                    &&& roots@[i] is None
                    &&& forall|j: int| 0 <= j < i ==> roots@[j] is Some && no_entry_named(roots@[j]->0@, name@)
                },
                Err(ServeError::NotFound) => forall|j: int| 0 <= j < roots@.len() ==> roots@[j] is Some
                    && no_entry_named(roots@[j]->0@, name@),
                Err(_) => false,
            },
    {
        let mut i: usize = 0;
        while i < roots.len()
            invariant
                i <= roots@.len(),
                forall|j: int| 0 <= j < i ==> roots@[j] is Some && no_entry_named(roots@[j]->0@, name@),
            decreases roots@.len() - i,
        {
            match find_entry(&roots[i], name) {
                Ok(k) => {
                    return Ok((i, k));
                },
                Err(e) => {
                    if e == ServeError::Io {
                        return Err(ServeError::Io);
                    }
                },
            }
            i = i + 1;
        }
        Err(ServeError::NotFound)
    }
}

/// Whether two lists of names hold the same texts in the same order.
pub open spec fn names_match(a: Seq<String>, b: Seq<String>) -> bool {
    a.len() == b.len() && forall|i: int| 0 <= i < a.len() ==> (#[trigger] a[i])@ == b[i]@
}

fn names_eq(a: &Vec<String>, b: &Vec<String>) -> (r: bool)
    ensures
        r == names_match(a@, b@),
{
    if a.len() != b.len() {
        return false;
    }
    let mut i: usize = 0;
    while i < a.len()
        invariant
            a@.len() == b@.len(),
            i <= a@.len(),
            forall|k: int| 0 <= k < i ==> (#[trigger] a@[k])@ == b@[k]@,
        decreases a@.len() - i,
    {
        if a[i] != b[i] {
            return false;
        }
        i = i + 1;
    }
    true
}

/// Whether two albums agree on everything but their artists.
pub open spec fn albums_match(a: AlbumView, b: AlbumView) -> bool {
    &&& a.name == b.name
    &&& a.cover == b.cover
    &&& a.path == b.path
    &&& names_match(a.files, b.files)
    &&& a.size == b.size
}

impl PartialEq for Album {
    /// Albums are equal when name, cover, path, files and size agree; the
    /// artist lists are not compared.
    fn eq(&self, other: &Album) -> (r: bool) {
        self.name == other.name && self.cover == other.cover && self.path == other.path
            && names_eq(&self.files, &other.files) && self.size == other.size
    }
}

impl vstd::std_specs::cmp::PartialEqSpecImpl for Album {
    open spec fn obeys_eq_spec() -> bool {
        true
    }

    open spec fn eq_spec(&self, other: &Album) -> bool {
        albums_match(self@, other@)
    }
}

impl From<Metadata> for Album {
    /// An album with the descriptor's name, cover and artists, and as yet
    /// no path, files or size.
    fn from(x: Metadata) -> (r: Album)
        ensures
            r@ == (AlbumView {
                name: x.name@,
                cover: x.cover@,
                path: Seq::empty(),
                artists: x.artists@,
                files: Seq::empty(),
                size: 0,
            }),
    {
        Album { name: x.name, cover: x.cover, path: String::new(), files: Vec::new(), size: 0, artists: x.artists }
    }
}

impl vstd::std_specs::convert::FromSpecImpl<Metadata> for Album {
    open spec fn obeys_from_spec() -> bool {
        false
    }

    open spec fn from_spec(x: Metadata) -> Album {
        arbitrary()
    }
}

} // verus!
