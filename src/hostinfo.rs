//! Scanning root listings into albums, and building the manifest.
//!
//! The filesystem is read by the caller, which hands over what it found as
//! plain listings. A root that could not be read fails the whole scan; an
//! album directory whose descriptor or content could not be read is skipped.

use vstd::prelude::*;
use crate::album::{albums_match, Album, AlbumView};
use crate::artist::Artist;
use crate::config::Config;
use crate::error::ServeError;
use crate::metadata::Metadata;
use crate::owner::{opt_view, Owner};
use crate::text::str_eq;

verus! {

/// One entry of an album directory.
#[derive(Debug)]
pub struct ListedFile {
    /// The entry's name, or `None` where it is not valid Unicode.
    pub name: Option<String>,
    /// Whether the entry is a regular file.
    pub is_file: bool,
    /// The entry's size in bytes, or `None` where it could not be read.
    pub size: Option<u64>,
}

/// One entry of a root directory.
#[derive(Debug)]
pub struct ListedDir {
    /// The entry's name, or `None` where it is not valid Unicode.
    pub name: Option<String>,
    /// Whether the entry is a directory.
    pub is_dir: bool,
    /// The entry's metadata descriptor, or `None` where it could not be
    /// read or parsed.
    pub metadata: Option<Metadata>,
    /// The entries of the directory, or `None` where it could not be read.
    pub files: Option<Vec<ListedFile>>,
}

/// The entries of one root, or `None` where the root could not be read.
pub type RootListing = Option<Vec<ListedDir>>;

/// Whether a name carries the hidden-file marker.
pub open spec fn is_hidden(name: Seq<char>) -> bool {
    name.len() > 0 && name[0] == '.'
}

/// Whether an album directory entry is listed and counted: a readable,
/// named, regular file that is not hidden.
pub open spec fn is_listed(f: ListedFile) -> bool {
    &&& f.is_file
    &&& f.size is Some
    &&& f.name is Some
    &&& !is_hidden(f.name->0@)
}

/// The names of the listed entries, in listing order.
pub open spec fn listed_names(fs: Seq<ListedFile>) -> Seq<String>
    decreases fs.len(),
{
    if fs.len() == 0 {
        Seq::empty()
    } else {
        let rest = listed_names(fs.drop_last());
        if is_listed(fs.last()) {
            rest.push(fs.last().name->0)
        } else {
            rest
        }
    }
}

/// The total size of the listed entries.
pub open spec fn listed_size(fs: Seq<ListedFile>) -> int
    decreases fs.len(),
{
    if fs.len() == 0 {
        0
    } else {
        listed_size(fs.drop_last()) + if is_listed(fs.last()) {
            fs.last().size->0 as int
        } else {
            0
        }
    }
}

/// The album that a directory entry gives, where its name, descriptor and
/// content could all be read.
pub open spec fn parsed_album(d: ListedDir) -> Option<AlbumView> {
    if d.name is Some && d.metadata is Some && d.files is Some {
        Some(
            AlbumView {
                name: d.metadata->0.name@,
                cover: d.metadata->0.cover@,
                path: d.name->0@,
                artists: d.metadata->0.artists@,
                files: listed_names(d.files->0@),
                size: listed_size(d.files->0@),
            },
        )
    } else {
        None
    }
}

/// Why a directory entry gives no album: an unreadable name, descriptor or
/// content, checked in that order.
pub open spec fn parse_error(d: ListedDir) -> ServeError {
    if d.name is None {
        ServeError::NotFound
    } else if d.metadata is None {
        ServeError::Parse
    } else {
        ServeError::Io
    }
}

/// Whether a root entry is accepted as an album.
pub open spec fn is_album(d: ListedDir) -> bool {
    d.is_dir && parsed_album(d) is Some
}

/// The albums of one root's entries, in listing order.
pub open spec fn albums_of(ds: Seq<ListedDir>) -> Seq<AlbumView>
    decreases ds.len(),
{
    if ds.len() == 0 {
        Seq::empty()
    } else {
        let rest = albums_of(ds.drop_last());
        if is_album(ds.last()) {
            rest.push(parsed_album(ds.last())->0)
        } else {
            rest
        }
    }
}

/// The albums of all readable roots, root after root.
pub open spec fn scanned(roots: Seq<RootListing>) -> Seq<AlbumView>
    decreases roots.len(),
{
    if roots.len() == 0 {
        Seq::empty()
    } else {
        scanned(roots.drop_last()) + match roots.last() {
            Some(ds) => albums_of(ds@),
            None => Seq::empty(),
        }
    }
}

/// Whether some root could not be read.
pub open spec fn some_root_unreadable(roots: Seq<RootListing>) -> bool {
    exists|i: int| 0 <= i < roots.len() && #[trigger] roots[i] is None
}

/// The sum of the album sizes.
pub open spec fn sizes_sum(albums: Seq<AlbumView>) -> int
    decreases albums.len(),
{
    if albums.len() == 0 {
        0
    } else {
        sizes_sum(albums.drop_last()) + albums.last().size
    }
}

/// The bytes of the listed files of the accepted albums of one root.
pub open spec fn dir_bytes(ds: Seq<ListedDir>) -> int
    decreases ds.len(),
{
    if ds.len() == 0 {
        0
    } else {
        dir_bytes(ds.drop_last()) + if is_album(ds.last()) {
            listed_size(ds.last().files->0@)
        } else {
            0
        }
    }
}

/// The bytes of the listed files of the accepted albums of all roots.
pub open spec fn root_bytes(roots: Seq<RootListing>) -> int
    decreases roots.len(),
{
    if roots.len() == 0 {
        0
    } else {
        root_bytes(roots.drop_last()) + match roots.last() {
            Some(ds) => dir_bytes(ds@),
            None => 0,
        }
    }
}

/// The index of a repository: its metadata, albums, owners and artists.
#[derive(Debug)]
pub struct Hostinfo {
    /// The repository's name.
    pub name: String,
    /// The icon representing the repository.
    pub icon: String,
    /// The repository's UUID, as a 128-bit integer.
    pub uuid: u128,
    /// Whether the repository asks for credentials.
    pub secured: bool,
    /// The total size of the albums in bytes.
    pub size: u128,
    /// The URL this manifest was requested at; empty until set per request.
    pub origin: String,
    /// The albums, in discovery order.
    pub albums: Vec<Album>,
    /// The repository's owners.
    pub owners: Vec<Owner>,
    /// The artists of the repository.
    pub artists: Vec<Artist>,
}

/// The model of a manifest.
pub struct HostinfoView {
    pub name: Seq<char>,
    pub icon: Seq<char>,
    pub uuid: u128,
    pub secured: bool,
    pub size: int,
    pub origin: Seq<char>,
    pub albums: Seq<AlbumView>,
    pub owners: Seq<Owner>,
    pub artists: Seq<Artist>,
}

impl View for Hostinfo {
    type V = HostinfoView;

    open spec fn view(&self) -> HostinfoView {
        HostinfoView {
            name: self.name@,
            icon: self.icon@,
            uuid: self.uuid,
            secured: self.secured,
            size: self.size as int,
            origin: self.origin@,
            albums: self.albums@.map_values(|a: Album| a@),
            owners: self.owners@,
            artists: self.artists@,
        }
    }
}

impl Clone for Hostinfo {
    fn clone(&self) -> (r: Self)
        ensures
            r@ == self@,
    {
        let albums = self.albums.clone();
        assert(albums@.map_values(|a: Album| a@) =~= self.albums@.map_values(|a: Album| a@));
        let owners = self.owners.clone();
        assert(owners@ =~= self.owners@);
        let artists = self.artists.clone();
        assert(artists@ =~= self.artists@);
        Hostinfo {
            name: self.name.clone(),
            icon: self.icon.clone(),
            uuid: self.uuid,
            secured: self.secured,
            size: self.size,
            origin: self.origin.clone(),
            albums,
            owners,
            artists,
        }
    }
}

/// The manifest built from a configuration, the scanned albums and the
/// artists: its size is the sum of the album sizes, and its origin is empty.
pub open spec fn manifest_of(cfg: Config, albums: Seq<AlbumView>, arts: Seq<Artist>) -> HostinfoView {
    HostinfoView {
        name: cfg.name@,
        icon: cfg.icon@,
        uuid: cfg.uuid,
        secured: cfg.htpasswd is Some,
        size: sizes_sum(albums),
        origin: Seq::empty(),
        albums,
        owners: cfg.owners@,
        artists: arts,
    }
}

/// Whether two owner lists agree owner by owner.
pub open spec fn owners_match(a: Seq<Owner>, b: Seq<Owner>) -> bool {
    &&& a.len() == b.len()
    &&& forall|i: int|
        0 <= i < a.len() ==> (#[trigger] a[i]).name@ == b[i].name@ && opt_view(a[i].email) == opt_view(
            b[i].email,
        ) && opt_view(a[i].website) == opt_view(b[i].website)
}

fn album_lists_eq(a: &Vec<Album>, b: &Vec<Album>) -> (r: bool)
    ensures
        r == (a@.len() == b@.len() && forall|i: int|
            0 <= i < a@.len() ==> albums_match(#[trigger] a@[i]@, b@[i]@)),
{
    if a.len() != b.len() {
        return false;
    }
    let mut i: usize = 0;
    while i < a.len()
        invariant
            a@.len() == b@.len(),
            i <= a@.len(),
            forall|k: int| 0 <= k < i ==> albums_match(#[trigger] a@[k]@, b@[k]@),
        decreases a@.len() - i,
    {
        if a[i] != b[i] {
            return false;
        }
        i = i + 1;
    }
    true
}

fn owner_lists_eq(a: &Vec<Owner>, b: &Vec<Owner>) -> (r: bool)
    ensures
        r == owners_match(a@, b@),
{
    if a.len() != b.len() {
        return false;
    }
    let mut i: usize = 0;
    while i < a.len()
        invariant
            a@.len() == b@.len(),
            i <= a@.len(),
            forall|k: int|
                0 <= k < i ==> (#[trigger] a@[k]).name@ == b@[k].name@ && opt_view(a@[k].email)
                    == opt_view(b@[k].email) && opt_view(a@[k].website) == opt_view(b@[k].website),
        decreases a@.len() - i,
    {
        if a[i] != b[i] {
            return false;
        }
        i = i + 1;
    }
    true
}

impl PartialEq for Hostinfo {
    /// Manifests are equal when all but their artist lists agree.
    fn eq(&self, other: &Hostinfo) -> (r: bool) {
        self.name == other.name && self.icon == other.icon && self.uuid == other.uuid && self.secured
            == other.secured && self.size == other.size && self.origin == other.origin
            && album_lists_eq(&self.albums, &other.albums) && owner_lists_eq(&self.owners, &other.owners)
    }
}

impl vstd::std_specs::cmp::PartialEqSpecImpl for Hostinfo {
    open spec fn obeys_eq_spec() -> bool {
        true
    }

    open spec fn eq_spec(&self, other: &Hostinfo) -> bool {
        &&& self.name@ == other.name@
        &&& self.icon@ == other.icon@
        &&& self.uuid == other.uuid
        &&& self.secured == other.secured
        &&& self.size == other.size
        &&& self.origin@ == other.origin@
        &&& self.albums@.len() == other.albums@.len()
        &&& forall|i: int|
            0 <= i < self.albums@.len() ==> albums_match(#[trigger] self.albums@[i]@, other.albums@[i]@)
        &&& owners_match(self.owners@, other.owners@)
    }
}

impl From<Config> for Hostinfo {
    /// A manifest with the configuration's name, icon, UUID, owners and
    /// security, and as yet no albums, artists, size or origin.
    fn from(x: Config) -> (r: Hostinfo)
        ensures
            r@ == (HostinfoView {
                name: x.name@,
                icon: x.icon@,
                uuid: x.uuid,
                secured: x.htpasswd is Some,
                size: 0,
                origin: Seq::empty(),
                albums: Seq::empty(),
                owners: x.owners@,
                artists: Seq::empty(),
            }),
    {
        let secured = x.htpasswd.is_some();
        let r = Hostinfo {
            name: x.name,
            icon: x.icon,
            uuid: x.uuid,
            secured,
            size: 0,
            origin: String::new(),
            albums: Vec::new(),
            owners: x.owners,
            artists: Vec::new(),
        };
        assert(r@.albums =~= Seq::<AlbumView>::empty());
        r
    }
}

impl vstd::std_specs::convert::FromSpecImpl<Config> for Hostinfo {
    open spec fn obeys_from_spec() -> bool {
        false
    }

    open spec fn from_spec(x: Config) -> Hostinfo {
        arbitrary()
    }
}

/// Relies on `uuid::Uuid::new_v4` and `Uuid::as_u128`: a random UUID whose
/// version field is 4 and whose variant is the RFC 4122 one.
#[verifier::external_body]
pub(crate) fn random_uuid() -> (r: u128)
    ensures
        (r >> 76u128) & 0xfu128 == 4,
        (r >> 62u128) & 0x3u128 == 2,
{
    uuid::Uuid::new_v4().as_u128()
}

fn starts_with_marker(name: &String) -> (r: bool)
    ensures
        r == is_hidden(name@),
{
    let s = name.as_str();
    s.unicode_len() > 0 && s.get_char(0) == '.'
}

proof fn lemma_listed_size_bound(fs: Seq<ListedFile>)
    ensures
        0 <= listed_size(fs) <= fs.len() * 0xffff_ffff_ffff_ffff,
    decreases fs.len(),
{
    if fs.len() > 0 {
        lemma_listed_size_bound(fs.drop_last());
    }
}

proof fn lemma_sizes_prefix(s: Seq<AlbumView>, j: int)
    requires
        0 <= j <= s.len(),
        forall|k: int| 0 <= k < s.len() ==> #[trigger] s[k].size >= 0,
    ensures
        sizes_sum(s.subrange(0, j)) <= sizes_sum(s),
    decreases s.len(),
{
    if j < s.len() {
        assert(s.drop_last().subrange(0, j) =~= s.subrange(0, j));
        lemma_sizes_prefix(s.drop_last(), j);
    } else {
        assert(s.subrange(0, j) =~= s);
    }
}

proof fn lemma_dir_bytes_prefix(ds: Seq<ListedDir>, k: int)
    requires
        0 <= k <= ds.len(),
    ensures
        0 <= dir_bytes(ds.subrange(0, k)) <= dir_bytes(ds),
    decreases ds.len(),
{
    if k < ds.len() {
        assert(ds.drop_last().subrange(0, k) =~= ds.subrange(0, k));
        lemma_dir_bytes_prefix(ds.drop_last(), k);
        if is_album(ds.last()) {
            lemma_listed_size_bound(ds.last().files->0@);
        }
    } else {
        assert(ds.subrange(0, k) =~= ds);
        if ds.len() > 0 {
            assert(ds.subrange(0, ds.len() - 1) =~= ds.drop_last());
            lemma_dir_bytes_prefix(ds.drop_last(), ds.len() - 1);
            if is_album(ds.last()) {
                lemma_listed_size_bound(ds.last().files->0@);
            }
        }
    }
}

proof fn lemma_root_bytes_prefix(roots: Seq<RootListing>, i: int)
    requires
        0 <= i <= roots.len(),
    ensures
        0 <= root_bytes(roots.subrange(0, i)) <= root_bytes(roots),
    decreases roots.len(),
{
    if roots.len() > 0 {
        if i < roots.len() {
            assert(roots.drop_last().subrange(0, i) =~= roots.subrange(0, i));
            lemma_root_bytes_prefix(roots.drop_last(), i);
        } else {
            assert(roots.subrange(0, i) =~= roots);
            assert(roots.subrange(0, roots.len() - 1) =~= roots.drop_last());
            lemma_root_bytes_prefix(roots.drop_last(), roots.len() - 1);
        }
        match roots.last() {
            Some(ds) => {
                lemma_dir_bytes_prefix(ds@, ds@.len() as int);
                assert(ds@.subrange(0, ds@.len() as int) =~= ds@);
            },
            None => {},
        }
    } else {
        assert(roots.subrange(0, i) =~= roots);
    }
}

impl Hostinfo {
    /// Sets the URL that this manifest was requested at.
    pub fn set_origin(&mut self, org: String)
        ensures
            final(self)@ == (HostinfoView { origin: org@, ..old(self)@ }),
    {
        self.origin = org;
    }

    /// An empty manifest with a fresh random UUID.
    pub fn empty() -> (r: Hostinfo)
        ensures
            r.name@.len() == 0,
            r.icon@.len() == 0,
            !r.secured,
            r.size == 0,
            r.origin@.len() == 0,
            r.albums@.len() == 0,
            r.owners@.len() == 0,
            r.artists@.len() == 0,
            (r.uuid >> 76u128) & 0xfu128 == 4,
            (r.uuid >> 62u128) & 0x3u128 == 2,
    {
        Hostinfo {
            name: String::new(),
            icon: String::new(),
            uuid: random_uuid(),
            secured: false,
            size: 0,
            origin: String::new(),
            albums: Vec::new(),
            owners: Vec::new(),
            artists: Vec::new(),
        }
    }

    /// The index of the first album whose directory name is `path`, if any.
    pub fn find_album(&self, path: &String) -> (r: Option<usize>)
        ensures
            match r {
                Some(k) => k < self.albums@.len() && self.albums@[k as int].path@ == path@ && forall|j: int|
                    0 <= j < k ==> (#[trigger] self.albums@[j]).path@ != path@,
                None => forall|j: int|
                    0 <= j < self.albums@.len() ==> (#[trigger] self.albums@[j]).path@ != path@,
            },
    {
        let mut k: usize = 0;
        while k < self.albums.len()
            invariant
                k <= self.albums@.len(),
                forall|j: int| 0 <= j < k ==> (#[trigger] self.albums@[j]).path@ != path@,
            decreases self.albums@.len() - k,
        {
            if str_eq(self.albums[k].path.as_str(), path.as_str()) {
                return Some(k);
            }
            k = k + 1;
        }
        None
    }

    /// Lists an album directory: the names of its visible regular files, in
    /// listing order, and their total size. Hidden entries, entries that are
    /// not regular files, and entries whose name or size could not be read
    /// are left out of both.
    pub fn list_files(entries: &Vec<ListedFile>) -> (r: (Vec<String>, u128))
        ensures
            r.0@ == listed_names(entries@),
            r.1 as int == listed_size(entries@),
    {
        let mut names: Vec<String> = Vec::new();
        let mut total: u128 = 0;
        let mut i: usize = 0;
        while i < entries.len()
            invariant
                i <= entries@.len(),
                names@ == listed_names(entries@.subrange(0, i as int)),
                total as int == listed_size(entries@.subrange(0, i as int)),
            decreases entries@.len() - i,
        {
            proof {
                lemma_listed_size_bound(entries@.subrange(0, i + 1));
                assert(entries@.subrange(0, i + 1).drop_last() =~= entries@.subrange(0, i as int));
            }
            let f = &entries[i];
            if f.is_file {
                match (&f.name, f.size) {
                    (Some(n), Some(sz)) => {
                        if !starts_with_marker(n) {
                            names.push(n.clone());
                            total = total + sz as u128;
                        }
                    },
                    _ => {},
                }
            }
            i = i + 1;
        }
        assert(entries@.subrange(0, entries@.len() as int) =~= entries@);
        (names, total)
    }

    /// Turns one root entry into an album. Fails with `NotFound` where the
    /// name is unreadable, `Parse` where the descriptor is, and `Io` where the
    /// directory's content is.
    pub fn parse_album(d: &ListedDir) -> (r: Result<Album, ServeError>)
        ensures
            match r {
                Ok(a) => parsed_album(*d) == Some(a@),
                Err(e) => parsed_album(*d) is None && e == parse_error(*d),
            },
    {
        match &d.name {
            None => Err(ServeError::NotFound),
            Some(n) => match &d.metadata {
                None => Err(ServeError::Parse),
                Some(m) => match &d.files {
                    None => Err(ServeError::Io),
                    Some(fs) => {
                        let (files, size) = Hostinfo::list_files(fs);
                        let artists = m.artists.clone();
                        assert(artists@ =~= m.artists@);
                        Ok(
                            Album {
                                name: m.name.clone(),
                                cover: m.cover.clone(),
                                path: n.clone(),
                                artists,
                                files,
                                size,
                            },
                        )
                    },
                },
            },
        }
    }

    /// Reads the albums of one root: every directory entry that gives an
    /// album, in listing order. Entries that give none are skipped; an
    /// unreadable root fails with `Io`.
    pub fn read_albums(root: &RootListing) -> (r: Result<Vec<Album>, ServeError>)
        ensures
            match root {
                None => r == Err::<Vec<Album>, ServeError>(ServeError::Io),
                Some(ds) => r is Ok && r->Ok_0@.map_values(|a: Album| a@) == albums_of(ds@),
            },
    {
        match root {
            None => Err(ServeError::Io),
            Some(ds) => {
                let mut out: Vec<Album> = Vec::new();
                let mut i: usize = 0;
                while i < ds.len()
                    invariant
                        *root == Some(*ds),
                        i <= ds@.len(),
                        out@.map_values(|a: Album| a@) == albums_of(ds@.subrange(0, i as int)),
                    decreases ds@.len() - i,
                {
                    assert(ds@.subrange(0, i + 1).drop_last() =~= ds@.subrange(0, i as int));
                    let d = &ds[i];
                    if d.is_dir {
                        match Hostinfo::parse_album(d) {
                            Ok(a) => {
                                let ghost before = out@;
                                out.push(a);
                                assert(out@.map_values(|a: Album| a@) =~= before.map_values(
                                    |a: Album| a@,
                                ).push(a@));
                            },
                            Err(_) => {},
                        }
                    }
                    i = i + 1;
                }
                assert(ds@.subrange(0, ds@.len() as int) =~= ds@);
                Ok(out)
            },
        }
    }

    /// The total size of the visible files of every album that the roots'
    /// listings give, where it fits in 128 bits; `None` where it does not.
    /// [`Hostinfo::generate`] asks for a total that fits.
    pub fn scan_size(roots: &Vec<RootListing>) -> (r: Option<u128>)
        ensures
            match r {
                Some(total) => total as int == sizes_sum(scanned(roots@)),
                None => sizes_sum(scanned(roots@)) > u128::MAX,
            },
    {
        proof {
            lemma_root_bytes(roots@);
        }
        let mut total: u128 = 0;
        let mut i: usize = 0;
        while i < roots.len()
            invariant
                i <= roots@.len(),
                total as int == root_bytes(roots@.subrange(0, i as int)),
                sizes_sum(scanned(roots@)) == root_bytes(roots@),
            decreases roots@.len() - i,
        {
            assert(roots@.subrange(0, i + 1).drop_last() =~= roots@.subrange(0, i as int));
            proof {
                lemma_root_bytes_prefix(roots@, i + 1);
            }
            match &roots[i] {
                None => {},
                Some(ds) => {
                    let ghost base = total as int;
                    let mut k: usize = 0;
                    while k < ds.len()
                        invariant
                            roots@[i as int] == Some(*ds),
                            k <= ds@.len(),
                            total as int == base + dir_bytes(ds@.subrange(0, k as int)),
                            base + dir_bytes(ds@) <= root_bytes(roots@),
                            sizes_sum(scanned(roots@)) == root_bytes(roots@),
                        decreases ds@.len() - k,
                    {
                        assert(ds@.subrange(0, k + 1).drop_last() =~= ds@.subrange(0, k as int));
                        proof {
                            lemma_dir_bytes_prefix(ds@, k + 1);
                        }
                        let d = &ds[k];
                        if d.is_dir && d.name.is_some() && d.metadata.is_some() {
                            match &d.files {
                                Some(fs) => {
                                    let (_, bytes) = Hostinfo::list_files(fs);
                                    if total > u128::MAX - bytes {
                                        return None;
                                    }
                                    total = total + bytes;
                                },
                                None => {},
                            }
                        }
                        k = k + 1;
                    }
                    assert(ds@.subrange(0, ds@.len() as int) =~= ds@);
                },
            }
            i = i + 1;
        }
        assert(roots@.subrange(0, roots@.len() as int) =~= roots@);
        Some(total)
    }

    /// Builds the manifest from the configuration, the roots' listings in
    /// scan order and the artists. The albums are those of every root, root
    /// after root; the size is recomputed from the album sizes. Fails with
    /// `Io`, and only then, where some root could not be read.
    pub fn generate(cfg: &Config, roots: &Vec<RootListing>, arts: &Vec<Artist>) -> (r: Result<
        Hostinfo,
        ServeError,
    >)
        requires
            sizes_sum(scanned(roots@)) <= u128::MAX,
        ensures
            r is Err <==> some_root_unreadable(roots@),
            r is Err ==> r == Err::<Hostinfo, ServeError>(ServeError::Io),
            r is Ok ==> r->Ok_0@ == manifest_of(*cfg, scanned(roots@), arts@),
    {
        let mut albums: Vec<Album> = Vec::new();
        let mut i: usize = 0;
        while i < roots.len()
            invariant
                i <= roots@.len(),
                forall|j: int| 0 <= j < i ==> #[trigger] roots@[j] is Some,
                albums@.map_values(|a: Album| a@) == scanned(roots@.subrange(0, i as int)),
            decreases roots@.len() - i,
        {
            assert(roots@.subrange(0, i + 1).drop_last() =~= roots@.subrange(0, i as int));
            match Hostinfo::read_albums(&roots[i]) {
                Err(e) => {
                    assert(roots@[i as int] is None);
                    return Err(e);
                },
                Ok(found) => {
                    let mut found = found;
                    let ghost before = albums@;
                    let ghost added = found@;
                    albums.append(&mut found);
                    assert(albums@.map_values(|a: Album| a@) =~= before.map_values(|a: Album| a@)
                        + added.map_values(|a: Album| a@));
                },
            }
            i = i + 1;
        }
        assert(roots@.subrange(0, roots@.len() as int) =~= roots@);
        let ghost views = albums@.map_values(|a: Album| a@);
        let mut total: u128 = 0;
        let mut j: usize = 0;
        while j < albums.len()
            invariant
                views == albums@.map_values(|a: Album| a@),
                views == scanned(roots@),
                sizes_sum(views) <= u128::MAX,
                j <= albums@.len(),
                total as int == sizes_sum(views.subrange(0, j as int)),
            decreases albums@.len() - j,
        {
            proof {
                assert(views.subrange(0, j + 1).drop_last() =~= views.subrange(0, j as int));
                lemma_sizes_prefix(views, j + 1);
            }
            total = total + albums[j].size;
            j = j + 1;
        }
        assert(views.subrange(0, views.len() as int) =~= views);
        let owners = cfg.owners.clone();
        assert(owners@ =~= cfg.owners@);
        let artists = arts.clone();
        assert(artists@ =~= arts@);
        Ok(
            Hostinfo {
                name: cfg.name.clone(),
                icon: cfg.icon.clone(),
                uuid: cfg.uuid,
                secured: cfg.htpasswd.is_some(),
                size: total,
                origin: String::new(),
                albums,
                owners,
                artists,
            },
        )
    }
}

proof fn lemma_sizes_sum_concat(a: Seq<AlbumView>, b: Seq<AlbumView>)
    ensures
        sizes_sum(a + b) == sizes_sum(a) + sizes_sum(b),
    decreases b.len(),
{
    if b.len() == 0 {
        assert(a + b =~= a);
    } else {
        assert((a + b).drop_last() =~= a + b.drop_last());
        lemma_sizes_sum_concat(a, b.drop_last());
    }
}

proof fn lemma_dir_bytes(ds: Seq<ListedDir>)
    ensures
        sizes_sum(albums_of(ds)) == dir_bytes(ds),
    decreases ds.len(),
{
    if ds.len() > 0 {
        lemma_dir_bytes(ds.drop_last());
        let rest = albums_of(ds.drop_last());
        if is_album(ds.last()) {
            assert(rest.push(parsed_album(ds.last())->0).drop_last() =~= rest);
        }
    }
}

proof fn lemma_root_bytes(roots: Seq<RootListing>)
    ensures
        sizes_sum(scanned(roots)) == root_bytes(roots),
    decreases roots.len(),
{
    if roots.len() > 0 {
        lemma_root_bytes(roots.drop_last());
        match roots.last() {
            Some(ds) => {
                lemma_sizes_sum_concat(scanned(roots.drop_last()), albums_of(ds@));
                lemma_dir_bytes(ds@);
            },
            None => {
                assert(scanned(roots.drop_last()) + Seq::<AlbumView>::empty() =~= scanned(
                    roots.drop_last(),
                ));
            },
        }
    }
}

/// The size of a manifest is the sum of its album sizes, which is the sum
/// of the sizes of the visible files of every accepted album of every root.
pub proof fn lemma_manifest_size(cfg: Config, roots: Seq<RootListing>, arts: Seq<Artist>)
    ensures
        manifest_of(cfg, scanned(roots), arts).size == sizes_sum(
            manifest_of(cfg, scanned(roots), arts).albums,
        ),
        manifest_of(cfg, scanned(roots), arts).size == root_bytes(roots),
{
    lemma_root_bytes(roots);
}

/// Whether no file name of an album carries the hidden-file marker.
pub open spec fn no_hidden_files(a: AlbumView) -> bool {
    forall|k: int| 0 <= k < a.files.len() ==> !is_hidden(#[trigger] a.files[k]@)
}

proof fn lemma_listed_names_visible(fs: Seq<ListedFile>)
    ensures
        forall|k: int|
            0 <= k < listed_names(fs).len() ==> !is_hidden(#[trigger] listed_names(fs)[k]@),
    decreases fs.len(),
{
    if fs.len() > 0 {
        lemma_listed_names_visible(fs.drop_last());
        let rest = listed_names(fs.drop_last());
        assert forall|k: int| 0 <= k < listed_names(fs).len() implies !is_hidden(
            #[trigger] listed_names(fs)[k]@,
        ) by {
            if k < rest.len() {
                assert(listed_names(fs)[k] == rest[k]);
            }
        }
    }
}

proof fn lemma_albums_visible(ds: Seq<ListedDir>)
    ensures
        forall|i: int| 0 <= i < albums_of(ds).len() ==> no_hidden_files(#[trigger] albums_of(ds)[i]),
    decreases ds.len(),
{
    if ds.len() > 0 {
        lemma_albums_visible(ds.drop_last());
        let rest = albums_of(ds.drop_last());
        if is_album(ds.last()) {
            lemma_listed_names_visible(ds.last().files->0@);
        }
        assert forall|i: int| 0 <= i < albums_of(ds).len() implies no_hidden_files(
            #[trigger] albums_of(ds)[i],
        ) by {
            if i < rest.len() {
                assert(albums_of(ds)[i] == rest[i]);
            }
        }
    }
}

/// Hidden files never appear in a manifest: no file name of any scanned
/// album carries the hidden-file marker.
pub proof fn lemma_no_hidden_in_manifest(roots: Seq<RootListing>)
    ensures
        forall|i: int| 0 <= i < scanned(roots).len() ==> no_hidden_files(#[trigger] scanned(roots)[i]),
    decreases roots.len(),
{
    if roots.len() > 0 {
        lemma_no_hidden_in_manifest(roots.drop_last());
        let rest = scanned(roots.drop_last());
        match roots.last() {
            Some(ds) => {
                lemma_albums_visible(ds@);
                assert forall|i: int| 0 <= i < scanned(roots).len() implies no_hidden_files(
                    #[trigger] scanned(roots)[i],
                ) by {
                    if i < rest.len() {
                        assert(scanned(roots)[i] == rest[i]);
                    } else {
                        assert(scanned(roots)[i] == albums_of(ds@)[i - rest.len()]);
                    }
                }
            },
            None => {
                assert(scanned(roots) =~= rest);
            },
        }
    }
}

proof fn lemma_listed_concat(a: Seq<ListedFile>, b: Seq<ListedFile>)
    ensures
        listed_names(a + b) == listed_names(a) + listed_names(b),
        listed_size(a + b) == listed_size(a) + listed_size(b),
    decreases b.len(),
{
    if b.len() == 0 {
        assert(a + b =~= a);
        assert(listed_names(a) + listed_names(b) =~= listed_names(a));
    } else {
        assert((a + b).drop_last() =~= a + b.drop_last());
        lemma_listed_concat(a, b.drop_last());
        assert(listed_names(a) + listed_names(b.drop_last()).push(b.last().name->0) =~= (
        listed_names(a) + listed_names(b.drop_last())).push(b.last().name->0));
    }
}

/// A hidden entry of an album directory changes neither the album's file
/// list nor its size, wherever it stands in the listing.
pub proof fn lemma_hidden_file_ignored(before: Seq<ListedFile>, hidden: ListedFile, after: Seq<ListedFile>)
    requires
        hidden.name is Some,
        is_hidden(hidden.name->0@),
    ensures
        listed_names(before + seq![hidden] + after) == listed_names(before + after),
        listed_size(before + seq![hidden] + after) == listed_size(before + after),
{
    lemma_listed_concat(before + seq![hidden], after);
    lemma_listed_concat(before, after);
    assert((before + seq![hidden]).drop_last() =~= before);
}

proof fn lemma_albums_concat(a: Seq<ListedDir>, b: Seq<ListedDir>)
    ensures
        albums_of(a + b) == albums_of(a) + albums_of(b),
    decreases b.len(),
{
    if b.len() == 0 {
        assert(a + b =~= a);
        assert(albums_of(a) + albums_of(b) =~= albums_of(a));
    } else {
        assert((a + b).drop_last() =~= a + b.drop_last());
        lemma_albums_concat(a, b.drop_last());
        if is_album(b.last()) {
            assert(albums_of(a) + albums_of(b.drop_last()).push(parsed_album(b.last())->0) =~= (
            albums_of(a) + albums_of(b.drop_last())).push(parsed_album(b.last())->0));
        }
    }
}

/// An album directory whose descriptor cannot be read or parsed is skipped
/// on its own: the albums found before and after it in the same root are
/// all kept, in order.
pub proof fn lemma_malformed_album_skipped(before: Seq<ListedDir>, bad: ListedDir, after: Seq<ListedDir>)
    requires
        bad.metadata is None,
    ensures
        albums_of(before + seq![bad] + after) == albums_of(before) + albums_of(after),
{
    lemma_albums_concat(before + seq![bad], after);
    assert((before + seq![bad]).drop_last() =~= before);
}

/// Whether album `a` is the album of entry `k` of `ds`: that entry is a
/// directory with a readable name, descriptor and content, the album's size
/// is the total size of the entry's visible files, and its files are the
/// entry's visible file names.
pub open spec fn from_entry(ds: Seq<ListedDir>, a: AlbumView, k: int) -> bool {
    &&& 0 <= k < ds.len()
    &&& is_album(ds[k])
    &&& a == parsed_album(ds[k])->0
    &&& a.size == listed_size(ds[k].files->0@)
    &&& a.files == listed_names(ds[k].files->0@)
}

/// Whether album `a` is the album of some entry of `ds`.
pub open spec fn from_some_entry(ds: Seq<ListedDir>, a: AlbumView) -> bool {
    exists|k: int| from_entry(ds, a, k)
}

/// Every album of a root is the album of one of its directory entries, so
/// its size is the total size of that directory's visible files.
pub proof fn lemma_albums_from_entries(ds: Seq<ListedDir>)
    ensures
        forall|i: int|
            0 <= i < albums_of(ds).len() ==> from_some_entry(ds, #[trigger] albums_of(ds)[i]),
    decreases ds.len(),
{
    if ds.len() > 0 {
        let init = ds.drop_last();
        lemma_albums_from_entries(init);
        let rest = albums_of(init);
        assert forall|i: int| 0 <= i < albums_of(ds).len() implies from_some_entry(
            ds,
            #[trigger] albums_of(ds)[i],
        ) by {
            if i < rest.len() {
                assert(albums_of(ds)[i] == rest[i]);
                assert(from_some_entry(init, rest[i]));
                let k = choose|k: int| from_entry(init, rest[i], k);
                assert(init[k] == ds[k]);
                assert(from_entry(ds, albums_of(ds)[i], k));
            } else {
                let k = ds.len() - 1;
                assert(from_entry(ds, albums_of(ds)[i], k));
            }
        }
    }
}

} // verus!
