//! Credentials of the venue's authenticated channels.
use vstd::prelude::*;

use crate::types::WsAuth;

verus! {

/// API key, secret and passphrase of an account.
#[derive(Clone)]
pub struct ApiCredentials {
    pub api_key: String,
    pub secret: String,
    pub passphrase: String,
}

/// The first eight characters of a key, or all of it when shorter.
pub open spec fn key_prefix(k: Seq<char>) -> Seq<char> {
    if k.len() <= 8 {
        k
    } else {
        k.subrange(0, 8)
    }
}

impl ApiCredentials {
    /// Whether none of the three parts is empty.
    pub fn is_valid(&self) -> (r: bool)
        ensures
            r == (self.api_key@.len() > 0 && self.secret@.len() > 0 && self.passphrase@.len()
                > 0),
    {
        self.api_key.as_str().unicode_len() > 0 && self.secret.as_str().unicode_len() > 0
            && self.passphrase.as_str().unicode_len() > 0
    }

    /// A description fit for logs: the key's first eight characters, and
    /// neither the secret nor the passphrase.
    pub fn redacted(&self) -> (r: String)
        ensures
            r@ == "ApiCredentials { api_key: \""@ + key_prefix(self.api_key@)
                + "...\", secret: \"[REDACTED]\", passphrase: \"[REDACTED]\" }"@,
    {
        let key = self.api_key.as_str();
        let n = key.unicode_len();
        let end = if n <= 8 {
            n
        } else {
            8
        };
        let prefix = key.substring_char(0, end);
        proof {
            assert(key@.subrange(0, n as int) =~= key@);
        }
        let mut s = String::from_str("ApiCredentials { api_key: \"");
        s.append(prefix);
        s.append("...\", secret: \"[REDACTED]\", passphrase: \"[REDACTED]\" }");
        s
    }

    /// The credentials in the form a user-channel subscription carries.
    pub fn to_ws_auth(&self) -> (r: WsAuth)
        ensures
            r.api_key == self.api_key,
            r.secret == self.secret,
            r.passphrase == self.passphrase,
    {
        WsAuth {
            api_key: self.api_key.clone(),
            secret: self.secret.clone(),
            passphrase: self.passphrase.clone(),
        }
    }
}

} // verus!
