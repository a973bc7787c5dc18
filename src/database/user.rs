//! A user with an Argon2 password hash in PHC form.

use vstd::prelude::*;
use crate::text::push_char;

verus! {

#[verifier::external_type_specification]
#[verifier::external_body]
pub struct ExPasswordHashError(argon2::password_hash::Error);

/// The PHC string that Argon2 with default parameters gives for a password
/// and a base64 salt, or `None` where it refuses them.
pub uninterp spec fn argon2_phc(passwd: Seq<u8>, salt: Seq<char>) -> Option<Seq<char>>;

/// Relies on `SaltString::generate` with `OsRng`: sixteen fresh random
/// bytes in the unpadded base64 form that the PHC format uses, which is 22
/// characters long.
#[verifier::external_body]
pub(crate) fn generate_salt() -> (r: String)
    ensures
        r@.len() == 22,
{
    argon2::password_hash::SaltString::generate(&mut argon2::password_hash::rand_core::OsRng).as_str().to_string()
}

/// Relies on `Argon2::hash_password` with `Argon2::default()`, the salt read
/// by `Salt::from_b64`: the PHC string of the hash, or why it failed.
#[verifier::external_body]
pub(crate) fn argon2_hash(passwd: &[u8], salt: &str) -> (r: Result<String, argon2::password_hash::Error>)
    ensures
        match r {
            Ok(s) => argon2_phc(passwd@, salt@) == Some(s@),
            Err(_) => argon2_phc(passwd@, salt@) is None,
        },
{
    let salt = argon2::password_hash::Salt::from_b64(salt)?;
    let hash = argon2::PasswordHasher::hash_password(&argon2::Argon2::default(), passwd, salt)?;
    Ok(hash.to_string())
}

/// Whether a password matches a PHC string under Argon2: the string parses,
/// and hashing the password with its salt and parameters gives its hash.
pub uninterp spec fn argon2_accepts(passwd: Seq<u8>, phc: Seq<char>) -> bool;

/// Relies on `PasswordHash::new`, which parses a PHC string, and
/// `Argon2::verify_password`, which rehashes the password with the parsed
/// salt and parameters and compares.
#[verifier::external_body]
pub(crate) fn argon2_verify(passwd: &[u8], phc: &str) -> (r: bool)
    ensures
        r == argon2_accepts(passwd@, phc@),
{
    match argon2::PasswordHash::new(phc) {
        Ok(h) => argon2::PasswordVerifier::verify_password(&argon2::Argon2::default(), passwd, &h).is_ok(),
        Err(_) => false,
    }
}

/// Why a user could not be created.
#[derive(Clone, Copy, Debug, PartialEq, Eq, Structural)]
pub enum UserError {
    /// The password could not be hashed.
    Hash,
}

/// A user: a name and an Argon2 PHC hash, which holds its own salt.
#[derive(Debug, Hash, PartialEq, Eq, PartialOrd, Ord)]
pub struct User {
    /// The plaintext user name.
    pub username: String,
    /// The Argon2 hash of the password in PHC form.
    pub password: String,
}

impl User {
    /// Creates a user from a name and an already hashed password.
    pub fn new(username: String, password: String) -> (r: User)
        ensures
            r.username == username,
            r.password == password,
    {
        User { username, password }
    }

    /// Creates a user from a name and a plaintext password, which is hashed
    /// with Argon2 under a fresh random salt.
    pub fn create(user: &str, passwd: &[u8]) -> (r: Result<User, UserError>)
        ensures
            match r {
                Ok(u) => u.username@ == user@ && exists|salt: Seq<char>|
                    salt.len() == 22 && argon2_phc(passwd@, salt) == Some(u.password@),
                Err(e) => e == UserError::Hash && exists|salt: Seq<char>|
                    salt.len() == 22 && argon2_phc(passwd@, salt) is None,
            },
    {
        let salt = generate_salt();
        match argon2_hash(passwd, salt.as_str()) {
            Ok(hash) => Ok(User { username: user.to_owned(), password: hash }),
            Err(_) => Err(UserError::Hash),
        }
    }

    /// The user as `username:password`.
    pub fn to_text(&self) -> (r: String)
        ensures
            r@ == self.username@ + seq![':'] + self.password@,
    {
        let mut out = self.username.clone();
        push_char(&mut out, ':');
        out.append(self.password.as_str());
        out
    }
}

} // verus!
