//! Artists credited on albums.

use vstd::prelude::*;
use crate::digest::hex_lower;
use crate::hostinfo::random_uuid;
use crate::owner::{opt_eq, opt_view, Owner};
use crate::text::push_char;

verus! {

/// An artist, as listed in a root's artist registry.
#[derive(Debug)]
pub struct Artist {
    /// The artist's name.
    pub name: String,
    /// The artist's website, if given.
    pub website: Option<String>,
    /// The artist's UUID, as a 128-bit integer.
    pub uuid: u128,
}

impl Clone for Artist {
    fn clone(&self) -> (r: Self)
        ensures
            r == *self,
    {
        Artist { name: self.name.clone(), website: self.website.clone(), uuid: self.uuid }
    }
}

impl Artist {
    /// Creates an artist from its name, website and UUID.
    pub fn new(name: String, website: Option<String>, uuid: u128) -> (r: Artist)
        ensures
            r.name == name,
            r.website == website,
            r.uuid == uuid,
    {
        Artist { name, website, uuid }
    }
}

/// The sixteen bytes of a UUID, most significant first.
pub open spec fn uuid_bytes(u: u128) -> Seq<u8> {
    Seq::new(16, |i: int| ((u >> ((120 - 8 * i) as u128)) & 0xffu128) as u8)
}

/// The hyphenated lowercase form of a UUID: 8-4-4-4-12 hexadecimal digits.
pub open spec fn uuid_text(u: u128) -> Seq<char> {
    let h = hex_lower(uuid_bytes(u));
    h.subrange(0, 8) + seq!['-'] + h.subrange(8, 12) + seq!['-'] + h.subrange(12, 16) + seq!['-']
        + h.subrange(16, 20) + seq!['-'] + h.subrange(20, 32)
}

/// Relies on `uuid::Uuid::from_u128` and the `Display` of `Uuid`, which
/// writes the hyphenated lowercase form.
#[verifier::external_body]
fn uuid_string(u: u128) -> (r: String)
    ensures
        r@ == uuid_text(u),
{
    uuid::Uuid::from_u128(u).to_string()
}

/// How an artist is shown: the name, the website in parentheses where
/// given, and the UUID.
pub open spec fn artist_text(name: Seq<char>, website: Option<Seq<char>>, uuid: u128) -> Seq<char> {
    match website {
        Some(w) => name + seq![' ', '('] + w + seq![')', ' '] + uuid_text(uuid),
        None => name + seq![' '] + uuid_text(uuid),
    }
}

impl Artist {
    /// The artist as text: `name (website) uuid`, or `name uuid`.
    pub fn to_text(&self) -> (r: String)
        ensures
            r@ == artist_text(self.name@, opt_view(self.website), self.uuid),
    {
        let mut out = self.name.clone();
        match &self.website {
            Some(w) => {
                push_char(&mut out, ' ');
                push_char(&mut out, '(');
                out.append(w.as_str());
                push_char(&mut out, ')');
            },
            None => {},
        }
        push_char(&mut out, ' ');
        let id = uuid_string(self.uuid);
        out.append(id.as_str());
        assert(out@ =~= artist_text(self.name@, opt_view(self.website), self.uuid));
        out
    }
}

impl PartialEq for Artist {
    fn eq(&self, other: &Artist) -> (r: bool) {
        self.name == other.name && opt_eq(&self.website, &other.website) && self.uuid == other.uuid
    }
}

impl vstd::std_specs::cmp::PartialEqSpecImpl for Artist {
    open spec fn obeys_eq_spec() -> bool {
        true
    }

    open spec fn eq_spec(&self, other: &Artist) -> bool {
        &&& self.name@ == other.name@
        &&& opt_view(self.website) == opt_view(other.website)
        &&& self.uuid == other.uuid
    }
}

impl From<Owner> for Artist {
    /// An artist with the owner's name and website and a fresh random
    /// version 4 UUID.
    fn from(x: Owner) -> (r: Artist)
        ensures
            r.name == x.name,
            r.website == x.website,
            (r.uuid >> 76u128) & 0xfu128 == 4,
            (r.uuid >> 62u128) & 0x3u128 == 2,
    {
        Artist { name: x.name, website: x.website, uuid: random_uuid() }
    }
}

impl vstd::std_specs::convert::FromSpecImpl<Owner> for Artist {
    open spec fn obeys_from_spec() -> bool {
        false
    }

    open spec fn from_spec(x: Owner) -> Artist {
        arbitrary()
    }
}

} // verus!
