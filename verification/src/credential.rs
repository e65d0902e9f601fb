//! Credential derivation for the zero-knowledge password protocol.
//!
//! A (username, password) pair is turned into a long-term credential pair: a
//! fresh random salt and a password verifier.  Both inputs are first run
//! through the protocol's canonical string normalization (printable ASCII
//! only, 1 to 16 characters, upper-cased); the plaintext password is neither
//! stored nor returned.

use vstd::prelude::*;
use vstd::string::*;

verus! {

/// A failure to derive a credential: the username, password or email does not
/// normalize.
#[derive(Clone, Copy, Debug, PartialEq, Eq, Structural)]
pub enum CredentialError {
    InvalidInput,
}

/// A character the canonical normalization accepts: printable ASCII.
pub open spec fn allowed_normal_char(c: char) -> bool {
    32 <= (c as int) && (c as int) < 127
}

/// ASCII upper-casing of one character.
pub open spec fn upper_char(c: char) -> char {
    if 'a' <= c && c <= 'z' {
        (c as int - 32) as char
    } else {
        c
    }
}

/// ASCII lower-casing of one character.
pub open spec fn lower_char(c: char) -> char {
    if 'A' <= c && c <= 'Z' {
        (c as int + 32) as char
    } else {
        c
    }
}

/// Whether the canonical normalization accepts the string: 1 to 16
/// characters, all printable ASCII.
pub open spec fn norm_ok(s: Seq<char>) -> bool {
    1 <= s.len() <= 16 && forall|i: int| 0 <= i < s.len() ==> allowed_normal_char(#[trigger] s[i])
}

/// The canonical normalization: ASCII upper-casing, character for character.
pub open spec fn norm_of(s: Seq<char>) -> Seq<char> {
    s.map_values(|c: char| upper_char(c))
}

/// ASCII lower-casing of a whole string, character for character.
pub open spec fn lower_of(s: Seq<char>) -> Seq<char> {
    s.map_values(|c: char| lower_char(c))
}

/// Relies on wow_srp's NormalizedString::new: per its source it succeeds
/// exactly on strings of 1 to 16 printable-ASCII characters, and the
/// normalized string it returns is the input ASCII-upper-cased character for
/// character.
#[verifier::external_body]
fn normalized_string_new(s: &str) -> (r: Result<String, CredentialError>)
    ensures
        r is Ok <==> norm_ok(s@),
        r matches Ok(n) ==> n@ == norm_of(s@),
{
    match wow_srp::normalized_string::NormalizedString::new(s) {
        Ok(n) => Ok(n.as_ref().to_owned()),
        Err(_) => Err(CredentialError::InvalidInput),
    }
}

/// Relies on wow_srp's SrpVerifier::from_username_and_password (its
/// NormalizedString arguments are converted with NormalizedString::new, which
/// cannot fail on accepted input): the salt is drawn fresh from a
/// cryptographically secure source and is 32 bytes long, and the password
/// verifier is 32 bytes long.  The salt is random, so no more is stated of
/// either value.
#[verifier::external_body]
fn srp_credential_pair(username: &str, password: &str) -> (r: (Vec<u8>, Vec<u8>))
    requires
        norm_ok(username@),
        norm_ok(password@),
    ensures
        r.0@.len() == 32,
        r.1@.len() == 32,
{
    let u = wow_srp::normalized_string::NormalizedString::new(username).unwrap();
    let p = wow_srp::normalized_string::NormalizedString::new(password).unwrap();
    let v = wow_srp::server::SrpVerifier::from_username_and_password(u, p);
    (v.salt().to_vec(), v.password_verifier().to_vec())
}

/// Relies on str::to_lowercase: its documentation defines it per-character,
/// and on ASCII characters the lowercase mapping is the one-byte ASCII one,
/// so on printable-ASCII input the result is the input lower-cased character
/// for character.
#[verifier::external_body]
fn ascii_lowercase(s: &str) -> (r: String)
    requires
        forall|i: int| 0 <= i < s@.len() ==> allowed_normal_char(#[trigger] s@[i]),
    ensures
        r@ == lower_of(s@),
{
    s.to_lowercase()
}

/// The canonical normalization, as the directory applies it to usernames
/// before storing or comparing them.
pub fn normalize(s: &str) -> (r: Result<String, CredentialError>)
    ensures
        r is Ok <==> norm_ok(s@),
        r matches Ok(n) ==> n@ == norm_of(s@),
{
    normalized_string_new(s)
}

/// Derive the long-term credential pair for a username and password: the
/// normalized username, a fresh random salt, and the password verifier.
///
/// Succeeds exactly when both the username and the password normalize; the
/// plaintext password is discarded and never part of the result.
pub fn derive_credential(username: &str, password: &str) -> (r: Result<
    (String, Vec<u8>, Vec<u8>),
    CredentialError,
>)
    ensures
        r is Ok <==> norm_ok(username@) && norm_ok(password@),
        r matches Ok(t) ==> t.0@ == norm_of(username@) && t.1@.len() == 32 && t.2@.len() == 32,
{
    let normalized = match normalized_string_new(username) {
        Ok(n) => n,
        Err(e) => {
            return Err(e);
        },
    };
    match normalized_string_new(password) {
        Ok(_) => (),
        Err(e) => {
            return Err(e);
        },
    }
    let (salt, verifier) = srp_credential_pair(username, password);
    Ok((normalized, salt, verifier))
}

/// Whether an email address is accepted for storage: non-empty, every
/// character from the same printable-ASCII set the canonical normalization
/// allows.  The protocol's 16-character cap is a client field limit and does
/// not apply to email addresses.
pub open spec fn email_ok(s: Seq<char>) -> bool {
    1 <= s.len() && forall|i: int| 0 <= i < s.len() ==> allowed_normal_char(#[trigger] s[i])
}

/// Normalize an email address for storage comparison: the canonical
/// character rule, then ASCII lower-casing.
pub fn normalize_email(email: &str) -> (r: Result<String, CredentialError>)
    ensures
        r is Ok <==> email_ok(email@),
        r matches Ok(s) ==> s@ == lower_of(email@),
{
    let n = email.unicode_len();
    if n == 0 {
        return Err(CredentialError::InvalidInput);
    }
    let mut i: usize = 0;
    while i < n
        invariant
            0 <= i <= n,
            n == email@.len(),
            forall|k: int| 0 <= k < i ==> allowed_normal_char(#[trigger] email@[k]),
        decreases n - i,
    {
        let c = email.get_char(i);
        let code = c as u32;
        if code < 32 || code > 126 {
            assert(!allowed_normal_char(email@[i as int]));
            return Err(CredentialError::InvalidInput);
        }
        assert(allowed_normal_char(email@[i as int]));
        i = i + 1;
    }
    Ok(ascii_lowercase(email))
}

} // verus!
