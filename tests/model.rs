use cyrkensia::album::Album;
use cyrkensia::artist::Artist;
use cyrkensia::config::Config;
use cyrkensia::database::user::User;
use cyrkensia::hostinfo::Hostinfo;
use cyrkensia::metadata::Metadata;
use cyrkensia::owner::Owner;
use cyrkensia::page::album_index;

#[test]
fn owner_text_variants() {
    let name_only = Owner::new("Ann".to_string(), None, None);
    assert_eq!(name_only.to_text(), "Ann");
    let web = Owner::new("Ann".to_string(), None, Some("https://a.example".to_string()));
    assert_eq!(web.to_text(), "Ann (https://a.example)");
    let mail = Owner::new("Ann".to_string(), Some("ann@a.example".to_string()), None);
    assert_eq!(mail.to_text(), "Ann <ann@a.example>");
    let both = Owner::new(
        "Ann".to_string(),
        Some("ann@a.example".to_string()),
        Some("https://a.example".to_string()),
    );
    assert_eq!(both.to_text(), "Ann <ann@a.example> (https://a.example)");
}

#[test]
fn owner_from_artist_and_equality() {
    let artist = Artist::new("Bo".to_string(), Some("https://bo.example".to_string()), 5);
    let owner = Owner::from(artist);
    assert_eq!(owner.name, "Bo");
    assert_eq!(owner.email, None);
    assert_eq!(owner.website, Some("https://bo.example".to_string()));
    assert!(owner == Owner::new("Bo".to_string(), None, Some("https://bo.example".to_string())));
    assert!(owner != Owner::new("Bo".to_string(), Some("x@y".to_string()), Some("https://bo.example".to_string())));
}

#[test]
fn artist_text_shows_uuid() {
    let id: u128 = 0x67e55044_10b1_426f_9247_bb680e5fe0c8;
    let a = Artist::new("Cy".to_string(), Some("https://cy.example".to_string()), id);
    assert_eq!(a.to_text(), "Cy (https://cy.example) 67e55044-10b1-426f-9247-bb680e5fe0c8");
    let b = Artist::new("Cy".to_string(), None, id);
    assert_eq!(b.to_text(), "Cy 67e55044-10b1-426f-9247-bb680e5fe0c8");
    assert!(a != b);
    assert!(b == Artist::new("Cy".to_string(), None, id));
}

#[test]
fn metadata_from_album_and_equality() {
    let album = Album::new("N".to_string(), "C".to_string(), "p".to_string(), vec![3], vec!["f".to_string()], 1);
    let m = Metadata::from(album);
    assert_eq!(m.name, "N");
    assert_eq!(m.cover, "C");
    assert_eq!(m.artists, vec![3]);
    assert!(m == Metadata::new("N".to_string(), "C".to_string(), vec![9]));
    assert!(m != Metadata::new("N".to_string(), "D".to_string(), vec![3]));
}

#[test]
fn album_and_manifest_equality_ignore_artists() {
    let a = Album::new("N".to_string(), "C".to_string(), "p".to_string(), vec![1], vec!["f".to_string()], 1);
    let b = Album::new("N".to_string(), "C".to_string(), "p".to_string(), vec![2], vec!["f".to_string()], 1);
    let c = Album::new("N".to_string(), "C".to_string(), "p".to_string(), vec![1], vec!["g".to_string()], 1);
    assert!(a == b);
    assert!(a != c);
    let mut h1 = Hostinfo::empty();
    h1.albums = vec![a.clone()];
    h1.artists = vec![Artist::new("x".to_string(), None, 1)];
    let mut h2 = h1.clone();
    h2.artists = Vec::new();
    assert!(h1 == h2);
    h2.albums = vec![c];
    assert!(h1 != h2);
    assert_eq!(h1.find_album(&"p".to_string()), Some(0));
    assert_eq!(h1.find_album(&"q".to_string()), None);
}

#[test]
fn album_page_lists_files() {
    let page = album_index("Jazz", &vec!["a.mp3".to_string(), "b.mp3".to_string()]);
    assert!(page.starts_with("<html><head><meta name=\"viewport\""));
    assert!(page.contains("</head><body><h2>Jazz (2)</h2><a href=\"a.mp3\">a.mp3</a><br>\n<a href=\"b.mp3\">b.mp3</a><br>\n</body></html>"));
    let many: Vec<String> = (0..12).map(|i| format!("{}.ogg", i)).collect();
    assert!(album_index("X", &many).contains("<h2>X (12)</h2>"));
    assert!(album_index("E", &Vec::new()).ends_with("<h2>E (0)</h2></body></html>"));
}

#[test]
fn user_new_and_create() {
    let u = User::new("ann".to_string(), "$argon2id$hash".to_string());
    assert_eq!(u.to_text(), "ann:$argon2id$hash");
    let created = User::create("bo", b"secret").unwrap();
    assert_eq!(created.username, "bo");
    assert!(created.password.starts_with("$argon2id$"));
}

#[test]
fn conversions_between_records() {
    let m = Metadata::new("Blue".to_string(), "blue.png".to_string(), vec![4, 5]);
    let a = Album::from(m);
    assert_eq!(a.name, "Blue");
    assert_eq!(a.cover, "blue.png");
    assert_eq!(a.artists, vec![4, 5]);
    assert_eq!(a.path, "");
    assert!(a.files.is_empty());
    assert_eq!(a.size, 0);

    let owner = Owner::new("Di".to_string(), Some("di@x".to_string()), Some("https://di.example".to_string()));
    let artist = Artist::from(owner);
    assert_eq!(artist.name, "Di");
    assert_eq!(artist.website, Some("https://di.example".to_string()));
    assert_eq!((artist.uuid >> 76) & 0xf, 4);

    let cfg = Config {
        name: "Repo".to_string(),
        icon: "i.png".to_string(),
        uuid: 77,
        contact: String::new(),
        addr: String::new(),
        root: vec!["r".to_string()],
        max_age: None,
        owners: vec![Owner::new("Ann".to_string(), None, None)],
        htpasswd: Some("users.json".to_string()),
        artists: None,
    };
    let h = Hostinfo::from(cfg);
    assert_eq!(h.name, "Repo");
    assert_eq!(h.icon, "i.png");
    assert_eq!(h.uuid, 77);
    assert!(h.secured);
    assert_eq!(h.size, 0);
    assert_eq!(h.origin, "");
    assert!(h.albums.is_empty());
    assert_eq!(h.owners.len(), 1);
    assert!(h.artists.is_empty());
}
