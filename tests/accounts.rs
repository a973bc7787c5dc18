use cyrkensia::account::{self, AccountError};
use cyrkensia::accounts::{hash, hash_passwd_salt, random_salt, Account};

#[test]
fn blake3_hash_of_abc() {
    assert_eq!(hash(b"abc"), "6437b3ac38465133ffb63b75273a8db548c558465d79db03fd359c6cd5bd9d85");
}

#[test]
fn salted_hash_appends_salt() {
    assert_eq!(hash_passwd_salt("ab".to_string(), &"c".to_string()), hash(b"abc"));
}

#[test]
fn random_salt_is_alphanumeric() {
    let s = random_salt();
    assert_eq!(s.chars().count(), 32);
    assert!(s.chars().all(|c| c.is_ascii_alphanumeric()));
}

#[test]
fn account_verifies_its_password() {
    let acc = Account::new("ann".to_string(), "secret".to_string());
    assert_eq!(acc.username, "ann");
    assert_eq!(acc.password, hash_passwd_salt("secret".to_string(), &acc.salt));
    assert!(acc.verify("secret".to_string()));
    assert!(!acc.verify("Secret".to_string()));
    assert_eq!(acc.to_text(), format!("ann:{}", acc.password));
}

#[test]
fn argon2_account_round_trip() {
    let acc = account::Account::new("cy".to_string(), "hunter2".to_string()).unwrap();
    assert_eq!(acc.username, "cy");
    assert_eq!(acc.salt.chars().count(), 22);
    assert!(acc.password.starts_with("$argon2id$"));
    assert_eq!(acc.verify("hunter2".to_string()), Ok(()));
    assert_eq!(acc.verify("hunter3".to_string()), Err(AccountError::Mismatch));
    assert_eq!(
        account::hash_passwd_salt("hunter2".to_string(), &acc.salt),
        Ok(acc.password.clone())
    );
    assert_eq!(account::hash_passwd_salt("x".to_string(), &"!".to_string()), Err(AccountError::Hash));
    assert_eq!(account::random_salt().chars().count(), 22);
    assert_eq!(acc.to_text(), format!("cy:{}", acc.password));
}
