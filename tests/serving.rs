use cyrkensia::album::Listing;
use cyrkensia::digest::{digest_header, etag, hashgen, to_hex};
use cyrkensia::error::ServeError;
use cyrkensia::http_date::{compare_time, filetime, gmt_suffix, EARLIEST_SECS, LATEST_SECS};
use cyrkensia::serving::{common_file, extension, file_head, file_serving, get_mime, FileParams};

const ABC_BLAKE3: &str = "6437b3ac38465133ffb63b75273a8db548c558465d79db03fd359c6cd5bd9d85";
const ABC_SHA256: &str = "ungWv48Bz+pBQUDeXa4iI7ADYaOWF3qctBD/YfIAFa0=";
const ABC_SHA512: &str =
    "3a81oZNherrMQXNJriBBMRLm+k6JqX6iCp7u5ktV05ohkpkqJ0/BqDa6PCOj/uu9RU1EI2Q86A4qmslPpUyknw==";

#[test]
fn digests_of_abc() {
    let d = hashgen(b"abc");
    assert_eq!(to_hex(&d.blake3), ABC_BLAKE3);
    assert_eq!(d.sha256, ABC_SHA256);
    assert_eq!(d.sha512, ABC_SHA512);
    assert_eq!(etag(&d), format!("\"{}\"", ABC_BLAKE3));
    assert_eq!(
        digest_header(&d),
        format!("sha-256={},sha-512={},blake3={}", ABC_SHA256, ABC_SHA512, ABC_BLAKE3)
    );
}

#[test]
fn digests_repeat_and_differ() {
    let a = hashgen(b"abc");
    let b = hashgen(b"abc");
    assert_eq!(a.blake3, b.blake3);
    assert_eq!(a.sha256, b.sha256);
    assert_eq!(a.sha512, b.sha512);
    let c = hashgen(b"abd");
    assert_ne!(a.blake3, c.blake3);
    let e = hashgen(b"");
    assert_ne!(a.blake3, e.blake3);
    assert_eq!(e.sha256.len(), 44);
    assert_eq!(e.sha512.len(), 88);
}

#[test]
fn hex_renders_lowercase_pairs() {
    assert_eq!(to_hex(&[0x00, 0x0f, 0xa0, 0xff]), "000fa0ff");
    assert_eq!(to_hex(&[]), "");
}

#[test]
fn last_modified_uses_gmt() {
    assert_eq!(filetime(1_000_000_000).unwrap(), "Sun, 9 Sep 2001 01:46:40 GMT");
    assert_eq!(filetime(0).unwrap(), "Thu, 1 Jan 1970 00:00:00 GMT");
    assert!(filetime(LATEST_SECS).is_ok());
    assert!(filetime(EARLIEST_SECS).is_ok());
    assert_eq!(filetime(LATEST_SECS + 1), Err(ServeError::Io));
    assert_eq!(filetime(EARLIEST_SECS - 1), Err(ServeError::Io));
}

#[test]
fn gmt_suffix_only_rewrites_zero_offset() {
    assert_eq!(gmt_suffix("Thu, 1 Jan 1970 00:00:00 +0000"), "Thu, 1 Jan 1970 00:00:00 GMT");
    assert_eq!(gmt_suffix("Thu, 1 Jan 1970 01:00:00 +0100"), "Thu, 1 Jan 1970 01:00:00 +0100");
    assert_eq!(gmt_suffix("0000"), "0000");
}

#[test]
fn compare_time_against_header() {
    let t = 1_000_000_000;
    assert_eq!(compare_time(t, "Sun, 9 Sep 2001 01:46:39 +0000"), Ok(true));
    assert_eq!(compare_time(t, "Sun, 9 Sep 2001 01:46:40 GMT"), Ok(false));
    assert_eq!(compare_time(t, "Sun, 9 Sep 2001 01:46:41 +0000"), Ok(false));
    assert_eq!(compare_time(t, "Sun, 9 Sep 2001 03:46:39 +0200"), Ok(true));
    assert_eq!(compare_time(t, "yesterday"), Err(ServeError::Parse));
}

#[test]
fn conditional_get_200_then_304() {
    let t: i64 = 1_000_000_000;
    let data = b"abc".to_vec();
    let full = file_serving("a.mp3", data.clone(), t, Some("Sun, 9 Sep 2001 01:46:39 GMT")).unwrap();
    assert_eq!(full.status, 200);
    assert_eq!(full.body, Some(data.clone()));
    let not_mod = file_serving("a.mp3", data.clone(), t, Some("Sun, 9 Sep 2001 01:46:41 GMT")).unwrap();
    assert_eq!(not_mod.status, 304);
    assert_eq!(not_mod.body, None);
    assert_eq!(full.headers.etag, not_mod.headers.etag);
    assert_eq!(full.headers.digest, not_mod.headers.digest);
    assert_eq!(full.headers.last_modified, not_mod.headers.last_modified);
    assert_eq!(full.headers.etag, format!("\"{}\"", ABC_BLAKE3));
    assert_eq!(full.headers.last_modified, "Sun, 9 Sep 2001 01:46:40 GMT");
    assert_eq!(full.headers.content_length, 3);
    assert_eq!(full.headers.content_type, "audio/mp3");
}

#[test]
fn bad_or_missing_header_serves_full() {
    let data = b"xyz".to_vec();
    let r = file_serving("song.ogg", data.clone(), 10, Some("not a date")).unwrap();
    assert_eq!(r.status, 200);
    assert_eq!(r.body, Some(data.clone()));
    let r = file_serving("song.ogg", data.clone(), 10, None).unwrap();
    assert_eq!(r.status, 200);
    assert_eq!(r.headers.content_type, "audio/ogg");
    assert_eq!(file_serving("x", data, LATEST_SECS + 1, None).unwrap_err(), ServeError::Io);
}

#[test]
fn head_has_headers_without_body() {
    let data = b"abc".to_vec();
    let r = file_head("cover.bin", &data, 1_000_000_000).unwrap();
    assert_eq!(r.status, 200);
    assert_eq!(r.body, None);
    assert_eq!(r.headers.content_type, "application/octet-stream");
    let h = common_file("cover.bin", &data, 1_000_000_000).unwrap();
    assert_eq!(h.etag, r.headers.etag);
}

#[test]
fn extension_follows_path_rules() {
    assert_eq!(extension("a.tar.gz"), Some("gz"));
    assert_eq!(extension("song.mp3"), Some("mp3"));
    assert_eq!(extension(".bashrc"), None);
    assert_eq!(extension("noext"), None);
    assert_eq!(extension("foo."), Some(""));
    assert_eq!(extension(".."), None);
    assert_eq!(extension(".a.b"), Some("b"));
}

#[test]
fn mime_types_by_extension() {
    assert_eq!(get_mime(Some("aac")), "audio/aac");
    assert_eq!(get_mime(Some("opus")), "audio/opus");
    assert_eq!(get_mime(Some("m4a")), "audio/mp4");
    assert_eq!(get_mime(Some("wav")), "audio/wav");
    assert_eq!(get_mime(Some("3gp")), "audio/3gpp");
    assert_eq!(get_mime(Some("3g2")), "audio/3gpp2");
    assert_eq!(get_mime(Some("midi")), "audio/midi");
    assert_eq!(get_mime(Some("mid")), "audio/midi");
    assert_eq!(get_mime(Some("oga")), "audio/ogg");
    assert_eq!(get_mime(Some("weba")), "audio/webm");
    assert_eq!(get_mime(Some("webm")), "audio/webm");
    assert_eq!(get_mime(Some("MP3")), "application/octet-stream");
    assert_eq!(get_mime(None), "application/octet-stream");
}

#[test]
fn find_file_exact_name() {
    let dir: Listing = Some(vec![Some("a.mp3".to_string()), None, Some(".metadata.json".to_string())]);
    assert_eq!(FileParams::find_file(&dir, &"a.mp3".to_string()), Ok(0));
    assert_eq!(FileParams::find_file(&dir, &".metadata.json".to_string()), Ok(2));
    assert_eq!(FileParams::find_file(&dir, &"A.mp3".to_string()), Err(ServeError::NotFound));
    assert_eq!(FileParams::find_file(&None, &"a.mp3".to_string()), Err(ServeError::Io));
}
