//! Network credentials: a network identifier and its secret.

use vstd::prelude::*;

verus! {

/// Largest network identifier that a radio accepts, in bytes.
pub const MAX_SSID_BYTES: usize = 32;

/// Largest secret that a radio accepts, in bytes.
pub const MAX_PASSWORD_BYTES: usize = 64;

/// Length of `text` in bytes once it is encoded as UTF-8.
pub open spec fn byte_len(text: Seq<char>) -> nat {
    vstd::utf8::encode_utf8(text).len()
}

/// Whether an identifier and a secret are both within the radio's limits.
pub open spec fn within_limits(ssid: Seq<char>, password: Seq<char>) -> bool {
    byte_len(ssid) <= MAX_SSID_BYTES && byte_len(password) <= MAX_PASSWORD_BYTES
}

/// Why a pair of strings is no pair of credentials.
#[derive(Clone, Copy, Debug, PartialEq, Eq, Structural)]
pub enum CredentialsError {
    /// The network identifier is longer than `MAX_SSID_BYTES`.
    SsidTooLong,
    /// The secret is longer than `MAX_PASSWORD_BYTES`.
    PasswordTooLong,
}

/// Why an identifier and a secret are refused, if they are: the
/// identifier is judged first.
pub open spec fn rejection(ssid: Seq<char>, password: Seq<char>) -> Option<CredentialsError> {
    if byte_len(ssid) > MAX_SSID_BYTES {
        Some(CredentialsError::SsidTooLong)
    } else if byte_len(password) > MAX_PASSWORD_BYTES {
        Some(CredentialsError::PasswordTooLong)
    } else {
        None
    }
}

/// A network identifier with its secret, both within the radio's limits.
/// The pair cannot be changed once it is made.
#[derive(Debug, PartialEq, Eq)]
pub struct Credentials {
    ssid: String,
    password: String,
}

impl View for Credentials {
    type V = (Seq<char>, Seq<char>);

    /// The identifier and the secret, as texts.
    closed spec fn view(&self) -> (Seq<char>, Seq<char>) {
        (self.ssid@, self.password@)
    }
}

impl Clone for Credentials {
    /// A second pair with the same identifier and the same secret.
    fn clone(&self) -> (copy: Self)
        ensures
            copy@ == self@,
    {
        proof {
            use_type_invariant(self);
        }
        Credentials { ssid: self.ssid.clone(), password: self.password.clone() }
    }
}

impl Credentials {
    #[verifier::type_invariant]
    spec fn bounded(self) -> bool {
        within_limits(self.ssid@, self.password@)
    }

    /// Makes credentials of an identifier and a secret, or says which of
    /// the two is too long.
    pub fn new(ssid: String, password: String) -> (made: Result<Credentials, CredentialsError>)
        ensures
            made is Ok <==> within_limits(ssid@, password@),
            made matches Ok(credentials) ==> credentials@ == (ssid@, password@),
            made matches Err(error) ==> rejection(ssid@, password@) == Some(error),
    {
        if ssid.as_str().as_bytes().len() > MAX_SSID_BYTES {
            Err(CredentialsError::SsidTooLong)
        } else if password.as_str().as_bytes().len() > MAX_PASSWORD_BYTES {
            Err(CredentialsError::PasswordTooLong)
        } else {
            Ok(Credentials { ssid, password })
        }
    }

    /// The network identifier.
    pub fn ssid(&self) -> (ssid: &str)
        ensures
            ssid@ == self@.0,
            byte_len(ssid@) <= MAX_SSID_BYTES,
    {
        proof {
            use_type_invariant(self);
        }
        self.ssid.as_str()
    }

    /// The secret.
    pub fn password(&self) -> (password: &str)
        ensures
            password@ == self@.1,
            byte_len(password@) <= MAX_PASSWORD_BYTES,
    {
        proof {
            use_type_invariant(self);
        }
        self.password.as_str()
    }
}

} // verus!
