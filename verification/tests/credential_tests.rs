use auth_directory::credential::{derive_credential, normalize, normalize_email, CredentialError};

fn contains_subslice(haystack: &[u8], needle: &[u8]) -> bool {
    if needle.is_empty() || needle.len() > haystack.len() {
        return false;
    }
    let mut i: usize = 0;
    while i + needle.len() <= haystack.len() {
        if &haystack[i..i + needle.len()] == needle {
            return true;
        }
        i += 1;
    }
    false
}

#[test]
fn two_derivations_differ_in_salt_and_verifier() {
    let first = derive_credential("alice", "Secret123!").unwrap();
    let second = derive_credential("alice", "Secret123!").unwrap();
    assert_eq!(first.0, second.0);
    assert_ne!(first.1, second.1, "two random salts should differ");
    assert_ne!(first.2, second.2, "different salts should give different verifiers");
}

#[test]
fn plaintext_password_never_appears_in_salt_or_verifier() {
    let password = "Secret123!";
    let (_, salt, verifier) = derive_credential("alice", password).unwrap();
    assert!(!contains_subslice(&salt, password.as_bytes()));
    assert!(!contains_subslice(&verifier, password.as_bytes()));
    let upper = "SECRET123!";
    assert!(!contains_subslice(&salt, upper.as_bytes()));
    assert!(!contains_subslice(&verifier, upper.as_bytes()));
}

#[test]
fn derivation_returns_normalized_username_and_fixed_lengths() {
    let (username, salt, verifier) = derive_credential("alice", "hunter2").unwrap();
    assert_eq!(username, "ALICE");
    assert_eq!(salt.len(), 32);
    assert_eq!(verifier.len(), 32);
}

#[test]
fn empty_username_is_invalid() {
    assert_eq!(derive_credential("", "hunter2"), Err(CredentialError::InvalidInput));
}

#[test]
fn overlong_username_is_invalid() {
    assert_eq!(
        derive_credential("seventeen-letter!", "hunter2"),
        Err(CredentialError::InvalidInput)
    );
}

#[test]
fn non_ascii_password_is_invalid() {
    assert_eq!(derive_credential("alice", "pässword"), Err(CredentialError::InvalidInput));
}

#[test]
fn normalize_uppercases_printable_ascii() {
    assert_eq!(normalize("alice").unwrap(), "ALICE");
    assert_eq!(normalize("AbC1!").unwrap(), "ABC1!");
    assert!(normalize("").is_err());
    assert!(normalize("\u{7f}").is_err());
}

#[test]
fn email_is_lowercased_and_not_length_capped() {
    assert_eq!(normalize_email("Alice@Example.COM").unwrap(), "alice@example.com");
    assert_eq!(normalize_email("alice@example.com").unwrap(), "alice@example.com");
    assert_eq!(normalize_email(""), Err(CredentialError::InvalidInput));
    assert_eq!(normalize_email("àlice@example.com"), Err(CredentialError::InvalidInput));
}
