//! Accounts whose passwords are stored as salted BLAKE3 hashes.

use vstd::prelude::*;
use vstd::utf8::encode_utf8;
use crate::digest::{blake3_bytes, blake3_of, hex_lower, lemma_hex_len, to_hex};
use crate::text::push_char;

verus! {

/// The length of a generated salt: as many characters as a BLAKE3 hash has
/// bytes.
pub const SALT_LEN: usize = 32;

/// An account: a user name, the hash of the salted password, and the salt.
#[derive(Debug)]
pub struct Account {
    /// The account's user name.
    pub username: String,
    /// The BLAKE3 hash, in hexadecimal, of the password followed by the salt.
    pub password: String,
    /// The salt appended to the password before hashing.
    pub salt: String,
}

/// Whether a character is an ASCII letter or digit.
pub open spec fn is_alphanumeric(c: char) -> bool {
    ('A' <= c <= 'Z') || ('a' <= c <= 'z') || ('0' <= c <= '9')
}

/// The bytes that are hashed for a password and a salt: the UTF-8 of the
/// password followed by the UTF-8 of the salt.
pub open spec fn salted(passwd: Seq<char>, salt: Seq<char>) -> Seq<u8> {
    encode_utf8(passwd) + encode_utf8(salt)
}

/// The stored hash of a password with a salt.
pub open spec fn password_hash_of(passwd: Seq<char>, salt: Seq<char>) -> Seq<char> {
    hex_lower(blake3_of(salted(passwd, salt)))
}

/// Relies on rand's `Alphanumeric` distribution sampled from `thread_rng`,
/// which draws from the ASCII letters and digits.
#[verifier::external_body]
fn random_alphanumeric() -> (c: char)
    ensures
        is_alphanumeric(c),
{
    rand::Rng::sample(&mut rand::thread_rng(), rand::distributions::Alphanumeric) as char
}

/// Hashes bytes with BLAKE3 and renders the hash in lowercase hexadecimal.
pub fn hash(input: &[u8]) -> (r: String)
    ensures
        r@ == hex_lower(blake3_of(input@)),
        r@.len() == 64,
{
    let h = blake3_bytes(input);
    proof {
        lemma_hex_len(h@);
    }
    to_hex(h.as_slice())
}

/// Hashes a password followed by a salt.
pub fn hash_passwd_salt(passwd: String, salt: &String) -> (r: String)
    ensures
        r@ == password_hash_of(passwd@, salt@),
        r@.len() == 64,
{
    let mut userpass = passwd.as_str().as_bytes_vec();
    let mut tail = salt.as_str().as_bytes_vec();
    userpass.append(&mut tail);
    hash(userpass.as_slice())
}

/// A fresh random salt of [`SALT_LEN`] ASCII letters and digits.
pub fn random_salt() -> (r: String)
    ensures
        r@.len() == SALT_LEN,
        forall|k: int| 0 <= k < r@.len() ==> is_alphanumeric(#[trigger] r@[k]),
{
    let mut out = String::new();
    let mut i: usize = 0;
    while i < SALT_LEN
        invariant
            i <= SALT_LEN,
            out@.len() == i,
            forall|k: int| 0 <= k < out@.len() ==> is_alphanumeric(#[trigger] out@[k]),
        decreases SALT_LEN - i,
    {
        let c = random_alphanumeric();
        push_char(&mut out, c);
        i = i + 1;
    }
    out
}

impl Account {
    /// Creates an account with a fresh random salt for the given password.
    pub fn new(name: String, passwd: String) -> (r: Account)
        ensures
            r.username == name,
            r.salt@.len() == SALT_LEN,
            forall|k: int| 0 <= k < r.salt@.len() ==> is_alphanumeric(#[trigger] r.salt@[k]),
            r.password@ == password_hash_of(passwd@, r.salt@),
            r.password@.len() == 64,
    {
        let salt = random_salt();
        let password = hash_passwd_salt(passwd, &salt);
        Account { username: name, password, salt }
    }

    /// Whether a plaintext password matches the account's stored hash.
    pub fn verify(&self, passwd: String) -> (r: bool)
        ensures
            r == (self.password@ == password_hash_of(passwd@, self.salt@)),
    {
        let passhash = hash_passwd_salt(passwd, &self.salt);
        passhash == self.password
    }

    /// The account as `username:password`.
    pub fn to_text(&self) -> (r: String)
        ensures
            r@ == self.username@ + seq![':'] + self.password@,
    {
        let mut out = self.username.clone();
        push_char(&mut out, ':');
        out.append(self.password.as_str());
        out
    }
}

} // verus!
