//! Repository owners and maintainers.

use vstd::prelude::*;
use crate::artist::Artist;
use crate::text::{push_char, str_eq};

verus! {

/// An owner or maintainer of a repository.
#[derive(Debug)]
pub struct Owner {
    /// The owner's name.
    pub name: String,
    /// The owner's e-mail address, if given.
    pub email: Option<String>,
    /// The owner's website or profile, if given.
    pub website: Option<String>,
}

impl Clone for Owner {
    fn clone(&self) -> (r: Self)
        ensures
            r == *self,
    {
        Owner { name: self.name.clone(), email: self.email.clone(), website: self.website.clone() }
    }
}

impl Owner {
    /// Creates an owner from its name, e-mail address and website.
    pub fn new(name: String, email: Option<String>, website: Option<String>) -> (r: Owner)
        ensures
            r.name == name,
            r.email == email,
            r.website == website,
    {
        Owner { name, email, website }
    }
}

/// How an owner is shown: the name, then `<email>` and `(website)` where
/// given.
pub open spec fn owner_text(name: Seq<char>, email: Option<Seq<char>>, website: Option<Seq<char>>) -> Seq<char> {
    let with_mail = match email {
        Some(e) => name + seq![' ', '<'] + e + seq!['>'],
        None => name,
    };
    match website {
        Some(w) => with_mail + seq![' ', '('] + w + seq![')'],
        None => with_mail,
    }
}

/// The view of an optional string.
pub open spec fn opt_view(s: Option<String>) -> Option<Seq<char>> {
    match s {
        Some(v) => Some(v@),
        None => None,
    }
}

impl Owner {
    /// The owner as text: `name <email> (website)`, leaving out what is not
    /// given.
    pub fn to_text(&self) -> (r: String)
        ensures
            r@ == owner_text(self.name@, opt_view(self.email), opt_view(self.website)),
    {
        let mut out = self.name.clone();
        match &self.email {
            Some(e) => {
                push_char(&mut out, ' ');
                push_char(&mut out, '<');
                out.append(e.as_str());
                push_char(&mut out, '>');
            },
            None => {},
        }
        match &self.website {
            Some(w) => {
                push_char(&mut out, ' ');
                push_char(&mut out, '(');
                out.append(w.as_str());
                push_char(&mut out, ')');
            },
            None => {},
        }
        assert(out@ =~= owner_text(self.name@, opt_view(self.email), opt_view(self.website)));
        out
    }
}

impl From<Artist> for Owner {
    fn from(x: Artist) -> (r: Owner) {
        Owner { name: x.name, email: None, website: x.website }
    }
}

impl vstd::std_specs::convert::FromSpecImpl<Artist> for Owner {
    open spec fn obeys_from_spec() -> bool {
        true
    }

    open spec fn from_spec(x: Artist) -> Owner {
        Owner { name: x.name, email: None, website: x.website }
    }
}

/// Whether two optional strings hold the same text.
pub fn opt_eq(a: &Option<String>, b: &Option<String>) -> (r: bool)
    ensures
        r == (opt_view(*a) == opt_view(*b)),
{
    match (a, b) {
        (Some(x), Some(y)) => str_eq(x.as_str(), y.as_str()),
        (None, None) => true,
        _ => false,
    }
}

impl PartialEq for Owner {
    fn eq(&self, other: &Owner) -> (r: bool) {
        self.name == other.name && opt_eq(&self.email, &other.email) && opt_eq(&self.website, &other.website)
    }
}

impl vstd::std_specs::cmp::PartialEqSpecImpl for Owner {
    open spec fn obeys_eq_spec() -> bool {
        true
    }

    open spec fn eq_spec(&self, other: &Owner) -> bool {
        &&& self.name@ == other.name@
        &&& opt_view(self.email) == opt_view(other.email)
        &&& opt_view(self.website) == opt_view(other.website)
    }
}

} // verus!
