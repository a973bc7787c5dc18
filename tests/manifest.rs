use cyrkensia::album::{Album, Listing};
use cyrkensia::artist::Artist;
use cyrkensia::config::Config;
use cyrkensia::error::ServeError;
use cyrkensia::hostinfo::{Hostinfo, ListedDir, ListedFile, RootListing};
use cyrkensia::metadata::Metadata;
use cyrkensia::owner::Owner;

fn file(name: &str, size: u64) -> ListedFile {
    ListedFile { name: Some(name.to_string()), is_file: true, size: Some(size) }
}

fn album_dir(dir: &str, title: &str, files: Vec<ListedFile>) -> ListedDir {
    ListedDir {
        name: Some(dir.to_string()),
        is_dir: true,
        metadata: Some(Metadata::new(title.to_string(), format!("{}-cover", dir), vec![7])),
        files: Some(files),
    }
}

fn config() -> Config {
    Config {
        name: "Repo".to_string(),
        icon: "icon.png".to_string(),
        uuid: 42,
        contact: "mail@example.org".to_string(),
        addr: "127.0.0.1:8080".to_string(),
        root: vec!["R".to_string()],
        max_age: Some(60),
        owners: vec![Owner::new("Ann".to_string(), None, Some("https://ann.example".to_string()))],
        htpasswd: None,
        artists: None,
    }
}

#[test]
fn jazz_album_hides_dotfile() {
    let roots: Vec<RootListing> = vec![Some(vec![album_dir(
        "jazz",
        "jazz",
        vec![file("a.mp3", 3), file(".meta.json", 40)],
    )])];
    let h = Hostinfo::generate(&config(), &roots, &Vec::new()).unwrap();
    assert_eq!(h.albums.len(), 1);
    assert_eq!(h.albums[0].name, "jazz");
    assert_eq!(h.albums[0].path, "jazz");
    assert_eq!(h.albums[0].files, vec!["a.mp3".to_string()]);
    assert_eq!(h.albums[0].size, 3);
    assert_eq!(h.size, 3);
}

#[test]
fn manifest_size_sums_albums_across_roots() {
    let roots: Vec<RootListing> = vec![
        Some(vec![
            album_dir("a", "A", vec![file("1.mp3", 10), file("2.mp3", 20)]),
            album_dir("b", "B", vec![file("3.ogg", 5), file(".hidden", 1000)]),
        ]),
        Some(vec![album_dir("c", "C", vec![file("4.wav", 100)])]),
    ];
    let arts = vec![Artist::new("Bo".to_string(), None, 7)];
    let h = Hostinfo::generate(&config(), &roots, &arts).unwrap();
    assert_eq!(h.albums.len(), 3);
    assert_eq!(h.albums[0].size, 30);
    assert_eq!(h.albums[1].size, 5);
    assert_eq!(h.albums[2].size, 100);
    assert_eq!(h.size, 135);
    assert_eq!(h.name, "Repo");
    assert_eq!(h.icon, "icon.png");
    assert_eq!(h.uuid, 42);
    assert!(!h.secured);
    assert_eq!(h.origin, "");
    assert_eq!(h.owners.len(), 1);
    assert_eq!(h.owners[0].name, "Ann");
    assert_eq!(h.artists.len(), 1);
    assert_eq!(h.artists[0].uuid, 7);
    assert_eq!(Hostinfo::scan_size(&roots), Some(135));
}

#[test]
fn secured_follows_account_file() {
    let mut cfg = config();
    cfg.htpasswd = Some("users.json".to_string());
    let h = Hostinfo::generate(&cfg, &vec![Some(Vec::new())], &Vec::new()).unwrap();
    assert!(h.secured);
    assert_eq!(h.size, 0);
    assert!(h.albums.is_empty());
}

#[test]
fn malformed_album_does_not_hide_others() {
    let broken = ListedDir {
        name: Some("broken".to_string()),
        is_dir: true,
        metadata: None,
        files: Some(vec![file("x.mp3", 9)]),
    };
    let roots: Vec<RootListing> = vec![Some(vec![
        album_dir("a", "A", vec![file("1.mp3", 1)]),
        broken,
        album_dir("b", "B", vec![file("2.mp3", 2)]),
    ])];
    let h = Hostinfo::generate(&config(), &roots, &Vec::new()).unwrap();
    let paths: Vec<&str> = h.albums.iter().map(|a| a.path.as_str()).collect();
    assert_eq!(paths, vec!["a", "b"]);
    assert_eq!(h.size, 3);
}

#[test]
fn unreadable_root_fails_scan() {
    let roots: Vec<RootListing> = vec![Some(vec![album_dir("a", "A", vec![file("1.mp3", 1)])]), None];
    assert_eq!(Hostinfo::generate(&config(), &roots, &Vec::new()).unwrap_err(), ServeError::Io);
    assert_eq!(Hostinfo::read_albums(&None).unwrap_err(), ServeError::Io);
}

#[test]
fn list_files_skips_dirs_unreadable_and_hidden() {
    let entries = vec![
        file("b.mp3", 4),
        ListedFile { name: Some("sub".to_string()), is_file: false, size: Some(4096) },
        ListedFile { name: None, is_file: true, size: Some(8) },
        ListedFile { name: Some("c.mp3".to_string()), is_file: true, size: None },
        file(".metadata.json", 50),
        file("a.mp3", 6),
    ];
    let (names, size) = Hostinfo::list_files(&entries);
    assert_eq!(names, vec!["b.mp3".to_string(), "a.mp3".to_string()]);
    assert_eq!(size, 10);
}

#[test]
fn list_files_counts_largest_sizes() {
    let entries = vec![file("a", u64::MAX), file("b", u64::MAX)];
    let (_, size) = Hostinfo::list_files(&entries);
    assert_eq!(size, 2 * (u64::MAX as u128));
}

#[test]
fn parse_album_reports_each_error() {
    let no_name = ListedDir { name: None, is_dir: true, metadata: None, files: None };
    assert_eq!(Hostinfo::parse_album(&no_name).unwrap_err(), ServeError::NotFound);
    let no_meta = ListedDir { name: Some("x".to_string()), is_dir: true, metadata: None, files: Some(Vec::new()) };
    assert_eq!(Hostinfo::parse_album(&no_meta).unwrap_err(), ServeError::Parse);
    let no_files = ListedDir {
        name: Some("x".to_string()),
        is_dir: true,
        metadata: Some(Metadata::new("X".to_string(), "c".to_string(), Vec::new())),
        files: None,
    };
    assert_eq!(Hostinfo::parse_album(&no_files).unwrap_err(), ServeError::Io);
    let ok = album_dir("x", "X", vec![file("1.mp3", 5)]);
    let a = Hostinfo::parse_album(&ok).unwrap();
    assert_eq!(a.name, "X");
    assert_eq!(a.cover, "x-cover");
    assert_eq!(a.path, "x");
    assert_eq!(a.artists, vec![7]);
    assert_eq!(a.size, 5);
}

#[test]
fn read_albums_skips_plain_files() {
    let mut not_dir = album_dir("f", "F", vec![file("1.mp3", 1)]);
    not_dir.is_dir = false;
    let root: RootListing = Some(vec![not_dir, album_dir("d", "D", vec![])]);
    let albums = Hostinfo::read_albums(&root).unwrap();
    assert_eq!(albums.len(), 1);
    assert_eq!(albums[0].path, "d");
}

#[test]
fn empty_manifest_has_random_v4_uuid() {
    let h = Hostinfo::empty();
    assert_eq!((h.uuid >> 76) & 0xf, 4);
    assert_eq!((h.uuid >> 62) & 0x3, 2);
    assert!(h.albums.is_empty());
    assert_eq!(h.size, 0);
}

#[test]
fn set_origin_changes_only_origin() {
    let roots: Vec<RootListing> = vec![Some(vec![album_dir("a", "A", vec![file("1.mp3", 1)])])];
    let h = Hostinfo::generate(&config(), &roots, &Vec::new()).unwrap();
    let mut copy = h.clone();
    copy.set_origin("https://foo.bar/hostinfo.json".to_string());
    assert_eq!(copy.origin, "https://foo.bar/hostinfo.json");
    assert_eq!(h.origin, "");
    assert_eq!(copy.size, h.size);
    assert_eq!(copy.albums.len(), h.albums.len());
}

#[test]
fn album_find_first_root_wins() {
    let roots: Vec<Listing> = vec![
        Some(vec![Some("rock".to_string()), None]),
        Some(vec![Some("jazz".to_string())]),
        Some(vec![Some("jazz".to_string())]),
    ];
    assert_eq!(Album::find(&roots, &"jazz".to_string()), Ok((1, 0)));
    assert_eq!(Album::find(&roots, &"rock".to_string()), Ok((0, 0)));
    assert_eq!(Album::find(&roots, &"pop".to_string()), Err(ServeError::NotFound));
    let broken: Vec<Listing> = vec![Some(vec![]), None, Some(vec![Some("pop".to_string())])];
    assert_eq!(Album::find(&broken, &"pop".to_string()), Err(ServeError::Io));
}

#[test]
fn album_new_keeps_parts() {
    let a = Album::new("N".to_string(), "C".to_string(), "p".to_string(), vec![1, 2], vec!["f".to_string()], 9);
    assert_eq!(a.name, "N");
    assert_eq!(a.artists, vec![1, 2]);
    assert_eq!(a.files, vec!["f".to_string()]);
    assert_eq!(a.size, 9);
}
