//! Accounts whose passwords are stored as Argon2 hashes with their salt.

use vstd::prelude::*;
use vstd::utf8::encode_utf8;
use crate::database::user::{argon2_accepts, argon2_hash, argon2_phc, argon2_verify, generate_salt};
use crate::text::push_char;

verus! {

/// Why an account operation failed.
#[derive(Clone, Copy, Debug, PartialEq, Eq, Structural)]
pub enum AccountError {
    /// The password could not be hashed with the salt.
    Hash,
    /// The password does not match the stored hash.
    Mismatch,
}

/// An account: a user name, the Argon2 hash of its password, and the salt.
#[derive(Debug)]
pub struct Account {
    /// The account's user name.
    pub username: String,
    /// The Argon2 hash of the password in PHC form.
    pub password: String,
    /// The salt the password was hashed with, in unpadded base64.
    pub salt: String,
}

/// Hashes a password with Argon2 under the given salt, giving the PHC
/// string; fails with `Hash` where Argon2 refuses the password or the salt.
pub fn hash_passwd_salt(passwd: String, salt: &String) -> (r: Result<String, AccountError>)
    ensures
        match r {
            Ok(s) => argon2_phc(encode_utf8(passwd@), salt@) == Some(s@),
            Err(e) => argon2_phc(encode_utf8(passwd@), salt@) is None && e == AccountError::Hash,
        },
{
    match argon2_hash(passwd.as_str().as_bytes(), salt.as_str()) {
        Ok(s) => Ok(s),
        Err(_) => Err(AccountError::Hash),
    }
}

/// A fresh random salt for Argon2: sixteen random bytes in unpadded base64.
pub fn random_salt() -> (r: String)
    ensures
        r@.len() == 22,
{
    generate_salt()
}

impl Account {
    /// Creates an account with a fresh random salt for the given password.
    pub fn new(name: String, passwd: String) -> (r: Result<Account, AccountError>)
        ensures
            match r {
                Ok(a) => {
                    &&& a.username == name
                    &&& a.salt@.len() == 22
                    &&& argon2_phc(encode_utf8(passwd@), a.salt@) == Some(a.password@)
                },
                Err(e) => e == AccountError::Hash && exists|salt: Seq<char>|
                    salt.len() == 22 && argon2_phc(encode_utf8(passwd@), salt) is None,
            },
    {
        let salt = random_salt();
        match hash_passwd_salt(passwd, &salt) {
            Ok(password) => Ok(Account { username: name, password, salt }),
            Err(e) => Err(e),
        }
    }

    /// Checks a plaintext password against the account's stored hash: the
    /// stored PHC string is parsed, and the password is hashed again with the
    /// salt and parameters that string carries and compared with its hash.
    /// `Mismatch` where the string does not parse or the hashes differ.
    pub fn verify(&self, passwd: String) -> (r: Result<(), AccountError>)
        ensures
            r is Ok <==> argon2_accepts(encode_utf8(passwd@), self.password@),
            r is Err ==> r == Err::<(), AccountError>(AccountError::Mismatch),
    {
        if argon2_verify(passwd.as_str().as_bytes(), self.password.as_str()) {
            Ok(())
        } else {
            Err(AccountError::Mismatch)
        }
    }

    /// The account as `username:password`.
    pub fn to_text(&self) -> (r: String)
        ensures
            r@ == self.username@ + seq![':'] + self.password@,
    {
        let mut out = self.username.clone();
        push_char(&mut out, ':');
        out.append(self.password.as_str());
        out
    }
}

} // verus!
