//! The HTML page that lists one album's files.

use vstd::prelude::*;
use crate::text::push_char;

verus! {

/// The head of the album page: viewport and colours.
pub const INDEX_STYLE: &'static str = "<meta name=\"viewport\" content=\"width=device-width, initial-scale=1.0\">
\t<style>
\th2 { color: white; text-decoration: underline; }
\ta { color: cyan; margin: 8px; }
\tbody { font-family: sans-serif, system-ui; background-color: #252545; }
\t</style>
\t";

/// The decimal digit for a value below 10.
pub open spec fn digit_char(d: int) -> char {
    ((d + 48) as u8) as char
}

/// The decimal text of a natural number, without leading zeros.
pub open spec fn decimal(n: nat) -> Seq<char>
    decreases n,
{
    if n < 10 {
        seq![digit_char(n as int)]
    } else {
        decimal(n / 10).push(digit_char((n % 10) as int))
    }
}

fn push_decimal(out: &mut String, n: usize)
    ensures
        final(out)@ == old(out)@ + decimal(n as nat),
    decreases n,
{
    if n >= 10 {
        push_decimal(out, n / 10);
    }
    let d = (n % 10) as u8;
    push_char(out, (d + 48) as char);
    assert(out@ =~= old(out)@ + decimal(n as nat));
}

/// One link line of the page.
pub open spec fn link_line(f: Seq<char>) -> Seq<char> {
    "<a href=\""@ + f + "\">"@ + f + "</a><br>\n"@
}

/// The link lines of a list of file names, in order.
pub open spec fn link_lines(files: Seq<String>) -> Seq<char>
    decreases files.len(),
{
    if files.len() == 0 {
        Seq::empty()
    } else {
        link_lines(files.drop_last()) + link_line(files.last()@)
    }
}

/// The page of an album: its name and file count as a heading, then one
/// link per file.
pub open spec fn index_page(name: Seq<char>, files: Seq<String>) -> Seq<char> {
    "<html><head>"@ + INDEX_STYLE@ + "</head><body>"@ + "<h2>"@ + name + " ("@ + decimal(
        files.len(),
    ) + ")</h2>"@ + link_lines(files) + "</body></html>"@
}

/// Renders the page of an album called `name` with the given files.
pub fn album_index(name: &str, files: &Vec<String>) -> (r: String)
    ensures
        r@ == index_page(name@, files@),
{
    let mut out = String::new();
    out.append("<html><head>");
    out.append(INDEX_STYLE);
    out.append("</head><body>");
    out.append("<h2>");
    out.append(name);
    out.append(" (");
    push_decimal(&mut out, files.len());
    out.append(")</h2>");
    let ghost head = out@;
    let mut i: usize = 0;
    while i < files.len()
        invariant
            i <= files@.len(),
            out@ == head + link_lines(files@.subrange(0, i as int)),
        decreases files@.len() - i,
    {
        assert(files@.subrange(0, i + 1).drop_last() =~= files@.subrange(0, i as int));
        let f = files[i].as_str();
        out.append("<a href=\"");
        out.append(f);
        out.append("\">");
        out.append(f);
        out.append("</a><br>\n");
        assert(out@ =~= head + link_lines(files@.subrange(0, i + 1)));
        i = i + 1;
    }
    assert(files@.subrange(0, files@.len() as int) =~= files@);
    out.append("</body></html>");
    assert(out@ =~= index_page(name@, files@));
    out
}

} // verus!
