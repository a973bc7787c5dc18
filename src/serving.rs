//! Serving single files: content type, validators, digests, and the choice
//! between a full response and `304 Not Modified`.

use vstd::prelude::*;
use crate::album::{find_entry, entry_named, no_entry_named, Listing};
use crate::digest::{
    blake3_of, digest_header, digest_header_of, digests_of, etag, etag_of, hashgen,
};
use crate::error::ServeError;
use crate::http_date::{compare_time, filetime, gmt_form, representable, rfc2822_instant, rfc2822_text};
use crate::text::str_eq;

verus! {

/// The path parameter of the album index route.
#[derive(Debug)]
pub struct IndexParams {
    /// The album's directory name.
    pub album: String,
}

/// The path parameters of the file routes.
#[derive(Debug)]
pub struct FileParams {
    /// The album's directory name.
    pub album: String,
    /// The file's name within the album directory.
    pub file: String,
}

impl FileParams {
    /// Finds the entry called `file` in an album directory's listing. Fails
    /// with `Io` where the directory could not be read and `NotFound` where
    /// no entry has that name.
    pub fn find_file(album_dir: &Listing, file: &String) -> (r: Result<usize, ServeError>)
        ensures
            match album_dir {
                None => r == Err::<usize, ServeError>(ServeError::Io),
                Some(names) => match r {
                    Ok(k) => k < names@.len() && entry_named(names@, k as int, file@)
                        && no_entry_named(names@.subrange(0, k as int), file@),
                    Err(e) => e == ServeError::NotFound && no_entry_named(names@, file@),
                },
            },
    {
        find_entry(album_dir, file)
    }
}

/// The index of the last `.` in a name, or -1 where there is none.
pub open spec fn last_dot(name: Seq<char>) -> int
    decreases name.len(),
{
    if name.len() == 0 {
        -1
    } else if name.last() == '.' {
        name.len() - 1
    } else {
        last_dot(name.drop_last())
    }
}

/// The extension of a file name: what follows its last `.`, where that dot
/// is not the name's first character, and the name is not `..`.
pub open spec fn extension_of(name: Seq<char>) -> Option<Seq<char>> {
    let i = last_dot(name);
    if i <= 0 || name == seq!['.', '.'] {
        None
    } else {
        Some(name.subrange(i + 1, name.len() as int))
    }
}

proof fn lemma_last_dot_at(name: Seq<char>, i: int)
    requires
        -1 <= i < name.len(),
        i >= 0 ==> name[i] == '.',
        forall|k: int| i < k < name.len() ==> name[k] != '.',
    ensures
        last_dot(name) == i,
    decreases name.len(),
{
    if name.len() > 0 && i < name.len() - 1 {
        lemma_last_dot_at(name.drop_last(), i);
    }
}

/// The extension of a file name, as `Path::extension` reads it.
pub fn extension(name: &str) -> (r: Option<&str>)
    ensures
        match extension_of(name@) {
            None => r is None,
            Some(e) => r is Some && r->0@ == e,
        },
{
    let n = name.unicode_len();
    let mut i: usize = n;
    let mut found = false;
    while i > 0 && !found
        invariant
            i <= n,
            n == name@.len(),
            found ==> i > 0 && name@[i - 1] == '.',
            forall|k: int| i <= k < n ==> name@[k] != '.',
        decreases 2 * i + if found { 0int } else { 1int },
    {
        if name.get_char(i - 1) == '.' {
            found = true;
        } else {
            i = i - 1;
        }
    }
    let ghost dot: int = if found { i - 1 } else { -1 };
    proof {
        lemma_last_dot_at(name@, dot);
    }
    if !found || i == 1 {
        return None;
    }
    if n == 2 && name.get_char(0) == '.' {
        assert(name@ =~= seq!['.', '.']);
        return None;
    }
    assert(name@ != seq!['.', '.']);
    Some(name.substring_char(i, n))
}

/// The content type of a file extension: the audio types the repository
/// serves, and `application/octet-stream` for anything else.
pub open spec fn mime_of(ext: Option<Seq<char>>) -> Seq<char> {
    match ext {
        None => "application/octet-stream"@,
        Some(e) => if e == "aac"@ {
            "audio/aac"@
        } else if e == "mp3"@ {
            "audio/mp3"@
        } else if e == "opus"@ {
            "audio/opus"@
        } else if e == "m4a"@ {
            "audio/mp4"@
        } else if e == "wav"@ {
            "audio/wav"@
        } else if e == "3gp"@ {
            "audio/3gpp"@
        } else if e == "3g2"@ {
            "audio/3gpp2"@
        } else if e == "mid"@ || e == "midi"@ {
            "audio/midi"@
        } else if e == "oga"@ || e == "ogg"@ {
            "audio/ogg"@
        } else if e == "weba"@ || e == "webm"@ {
            "audio/webm"@
        } else {
            "application/octet-stream"@
        },
    }
}

/// The content type for a file extension.
pub fn get_mime(extop: Option<&str>) -> (r: &'static str)
    ensures
        r@ == mime_of(
            match extop {
                Some(e) => Some(e@),
                None => None,
            },
        ),
{
    match extop {
        None => "application/octet-stream",
        Some(e) => if str_eq(e, "aac") {
            "audio/aac"
        } else if str_eq(e, "mp3") {
            "audio/mp3"
        } else if str_eq(e, "opus") {
            "audio/opus"
        } else if str_eq(e, "m4a") {
            "audio/mp4"
        } else if str_eq(e, "wav") {
            "audio/wav"
        } else if str_eq(e, "3gp") {
            "audio/3gpp"
        } else if str_eq(e, "3g2") {
            "audio/3gpp2"
        } else if str_eq(e, "mid") || str_eq(e, "midi") {
            "audio/midi"
        } else if str_eq(e, "oga") || str_eq(e, "ogg") {
            "audio/ogg"
        } else if str_eq(e, "weba") || str_eq(e, "webm") {
            "audio/webm"
        } else {
            "application/octet-stream"
        },
    }
}

/// The headers of a file response.
#[derive(Debug)]
pub struct FileHeaders {
    /// `Content-Length`: the file's size in bytes.
    pub content_length: usize,
    /// `Content-Type`, from the file's extension.
    pub content_type: &'static str,
    /// `Last-Modified`, as an HTTP date.
    pub last_modified: String,
    /// `ETag`: the quoted BLAKE3 hash in hexadecimal.
    pub etag: String,
    /// `Digest`: the SHA-256, SHA-512 and BLAKE3 values combined.
    pub digest: String,
}

/// Whether `h` holds the headers of the file called `name` with content
/// `data`, modified at second `mtime`.
pub open spec fn headers_match(h: FileHeaders, name: Seq<char>, data: Seq<u8>, mtime: int) -> bool {
    &&& h.content_length == data.len()
    &&& h.content_type@ == mime_of(extension_of(name))
    &&& h.last_modified@ == gmt_form(rfc2822_text(mtime))
    &&& h.etag@ == etag_of(blake3_of(data))
    &&& h.digest@ == digest_header_of(digests_of(data))
}

/// A file response: `200` with the body, or `304` with no body; the headers
/// are the same either way.
#[derive(Debug)]
pub struct FileResponse {
    /// The HTTP status: 200 or 304.
    pub status: u16,
    /// The response headers.
    pub headers: FileHeaders,
    /// The file's content, where it is sent.
    pub body: Option<Vec<u8>>,
}

/// Whether a file modified at `mtime` is sent in full: where no
/// `If-Modified-Since` header came, where it is no date, or where the file
/// changed strictly after it.
pub open spec fn sends_body(mtime: int, ims: Option<Seq<char>>) -> bool {
    match ims {
        None => true,
        Some(h) => match rfc2822_instant(h) {
            None => true,
            Some(t) => mtime > t,
        },
    }
}

/// Computes the headers of the file called `name` with content `data`,
/// modified at second `mtime`. Fails with `Io` where the modification time
/// cannot be shown as an HTTP date.
pub fn common_file(name: &str, data: &Vec<u8>, mtime: i64) -> (r: Result<FileHeaders, ServeError>)
    ensures
        match r {
            Ok(h) => representable(mtime as int) && headers_match(h, name@, data@, mtime as int),
            Err(e) => !representable(mtime as int) && e == ServeError::Io,
        },
{
    let last_modified = match filetime(mtime) {
        Ok(t) => t,
        Err(e) => {
            return Err(e);
        },
    };
    let digests = hashgen(data.as_slice());
    Ok(
        FileHeaders {
            content_length: data.len(),
            content_type: get_mime(extension(name)),
            last_modified,
            etag: etag(&digests),
            digest: digest_header(&digests),
        },
    )
}

/// Serves a file's content. With an `If-Modified-Since` header that parses
/// and that the file is not newer than, the reply is `304` with the headers
/// only; otherwise `200` with the headers and the content.
pub fn file_serving(name: &str, data: Vec<u8>, mtime: i64, ims: Option<&str>) -> (r: Result<
    FileResponse,
    ServeError,
>)
    ensures
        match r {
            Ok(resp) => {
                &&& representable(mtime as int)
                &&& headers_match(resp.headers, name@, data@, mtime as int)
                &&& if sends_body(
                    mtime as int,
                    match ims {
                        Some(h) => Some(h@),
                        None => None,
                    },
                ) {
                    resp.status == 200 && resp.body == Some(data)
                } else {
                    resp.status == 304 && resp.body is None
                }
            },
            Err(e) => !representable(mtime as int) && e == ServeError::Io,
        },
{
    let headers = match common_file(name, &data, mtime) {
        Ok(h) => h,
        Err(e) => {
            return Err(e);
        },
    };
    let send = match ims {
        None => true,
        Some(h) => match compare_time(mtime, h) {
            Ok(newer) => newer,
            Err(_) => true,
        },
    };
    if send {
        Ok(FileResponse { status: 200, headers, body: Some(data) })
    } else {
        Ok(FileResponse { status: 304, headers, body: None })
    }
}

/// Answers a metadata request for a file: `200` with the headers and no
/// body, whatever the conditional headers say.
pub fn file_head(name: &str, data: &Vec<u8>, mtime: i64) -> (r: Result<FileResponse, ServeError>)
    ensures
        match r {
            Ok(resp) => {
                &&& representable(mtime as int)
                &&& headers_match(resp.headers, name@, data@, mtime as int)
                &&& resp.status == 200
                &&& resp.body is None
            },
            Err(e) => !representable(mtime as int) && e == ServeError::Io,
        },
{
    match common_file(name, data, mtime) {
        Ok(headers) => Ok(FileResponse { status: 200, headers, body: None }),
        Err(e) => Err(e),
    }
}

} // verus!
