//! HTTP dates: the `Last-Modified` value of a file, and the
//! `If-Modified-Since` comparison.

use vstd::prelude::*;
use crate::error::ServeError;
use crate::text::push_char;

verus! {

/// The earliest second that an RFC 2822 date can show (0000-01-01 UTC).
pub const EARLIEST_SECS: i64 = -62167219200;

/// The latest second that an RFC 2822 date can show (9999-12-31 UTC).
pub const LATEST_SECS: i64 = 253402300799;

/// The RFC 2822 text of a UTC instant given in seconds since the epoch.
pub uninterp spec fn rfc2822_text(secs: int) -> Seq<char>;

/// The instant, in seconds since the epoch, that an RFC 2822 date denotes,
/// or `None` where the text is not such a date.
pub uninterp spec fn rfc2822_instant(s: Seq<char>) -> Option<int>;

/// Relies on chrono's `DateTime::<Utc>::from_timestamp`, which is `Some` for
/// every second from year 0 to year 9999, and `DateTime::to_rfc2822`, which
/// does not panic on those years.
#[verifier::external_body]
fn rfc2822_utc(secs: i64) -> (r: String)
    requires
        EARLIEST_SECS <= secs <= LATEST_SECS,
    ensures
        r@ == rfc2822_text(secs as int),
{
    match chrono::DateTime::from_timestamp(secs, 0) {
        Some(d) => d.to_rfc2822(),
        None => String::new(),
    }
}

/// Relies on chrono's `DateTime::parse_from_rfc2822` and
/// `DateTime::timestamp`: the instant the text denotes, if it is a date.
#[verifier::external_body]
fn parse_rfc2822(s: &str) -> (r: Option<i64>)
    ensures
        match r {
            Some(t) => rfc2822_instant(s@) == Some(t as int),
            None => rfc2822_instant(s@) is None,
        },
{
    chrono::DateTime::parse_from_rfc2822(s).ok().map(|d| d.timestamp())
}

/// The zero UTC offset as RFC 2822 writes it.
pub open spec fn utc_offset() -> Seq<char> {
    seq!['+', '0', '0', '0', '0']
}

/// An RFC 2822 date with a trailing zero offset written as `GMT`, the form
/// HTTP uses.
pub open spec fn gmt_form(s: Seq<char>) -> Seq<char> {
    if s.len() >= 5 && s.subrange(s.len() - 5, s.len() as int) == utc_offset() {
        s.subrange(0, s.len() - 5) + seq!['G', 'M', 'T']
    } else {
        s
    }
}

/// Rewrites a trailing `+0000` offset as `GMT`.
pub fn gmt_suffix(s: &str) -> (r: String)
    ensures
        r@ == gmt_form(s@),
{
    let n = s.unicode_len();
    if n >= 5 && s.get_char(n - 5) == '+' && s.get_char(n - 4) == '0' && s.get_char(n - 3) == '0'
        && s.get_char(n - 2) == '0' && s.get_char(n - 1) == '0' {
        assert(s@.subrange(n - 5, n as int) =~= utc_offset());
        let mut out = s.substring_char(0, n - 5).to_owned();
        push_char(&mut out, 'G');
        push_char(&mut out, 'M');
        push_char(&mut out, 'T');
        assert(out@ =~= gmt_form(s@));
        out
    } else {
        assert(n >= 5 ==> s@.subrange(n - 5, n as int) != utc_offset()) by {
            if n >= 5 && s@.subrange(n - 5, n as int) == utc_offset() {
                assert(s@.subrange(n - 5, n as int)[0] == s@[n - 5]);
                assert(s@.subrange(n - 5, n as int)[1] == s@[n - 4]);
                assert(s@.subrange(n - 5, n as int)[2] == s@[n - 3]);
                assert(s@.subrange(n - 5, n as int)[3] == s@[n - 2]);
                assert(s@.subrange(n - 5, n as int)[4] == s@[n - 1]);
            }
        }
        s.to_owned()
    }
}

/// Whether a file's modification second can be shown as an RFC 2822 date.
pub open spec fn representable(secs: int) -> bool {
    EARLIEST_SECS <= secs <= LATEST_SECS
}

/// The `Last-Modified` text of a modification time in seconds since the
/// epoch: its RFC 2822 date with the zero offset written as `GMT`. Fails with
/// `Io` where the time lies outside the years 0 to 9999.
pub fn filetime(mtime: i64) -> (r: Result<String, ServeError>)
    ensures
        match r {
            Ok(s) => representable(mtime as int) && s@ == gmt_form(rfc2822_text(mtime as int)),
            Err(e) => !representable(mtime as int) && e == ServeError::Io,
        },
{
    if mtime < EARLIEST_SECS || mtime > LATEST_SECS {
        return Err(ServeError::Io);
    }
    let text = rfc2822_utc(mtime);
    Ok(gmt_suffix(text.as_str()))
}

/// The answer to `If-Modified-Since` for a file modified at `ftime`, given
/// what the header parsed to: modified where `ftime` is strictly after the
/// header's instant, and `Parse` where the header was no date.
pub fn modified_after(ftime: i64, since: Option<i64>) -> (r: Result<bool, ServeError>)
    ensures
        match since {
            Some(t) => r == Ok::<bool, ServeError>(ftime > t),
            None => r == Err::<bool, ServeError>(ServeError::Parse),
        },
{
    match since {
        Some(t) => Ok(ftime > t),
        None => Err(ServeError::Parse),
    }
}

/// Compares a file's modification time with an `If-Modified-Since` header:
/// `Ok(true)` where the file changed after the header's date, `Ok(false)`
/// where it did not, and `Parse` where the header is no RFC 2822 date.
pub fn compare_time(ftime: i64, ims_head: &str) -> (r: Result<bool, ServeError>)
    ensures
        match rfc2822_instant(ims_head@) {
            Some(t) => r == Ok::<bool, ServeError>(ftime > t),
            None => r == Err::<bool, ServeError>(ServeError::Parse),
        },
{
    modified_after(ftime, parse_rfc2822(ims_head))
}

} // verus!
