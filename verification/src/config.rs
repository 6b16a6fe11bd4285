//! The settings of the process. They are read once at start-up and not
//! changed afterwards.

use crate::infrastructure::security::keys::{KeyError, Keys};
use vstd::prelude::*;

verus! {

/// Where the server listens.
#[derive(Debug)]
pub struct ServerSettings {
    pub host: String,
    pub port: u16,
}

impl Clone for ServerSettings {
    fn clone(&self) -> (r: Self)
        ensures
            r == *self,
    {
        ServerSettings { host: self.host.clone(), port: self.port }
    }
}

/// Where the certificate chain and the private key of the server lie.
#[derive(Debug)]
pub struct TlsSettings {
    pub cert_path: String,
    pub key_path: String,
}

impl Clone for TlsSettings {
    fn clone(&self) -> (r: Self)
        ensures
            r == *self,
    {
        TlsSettings { cert_path: self.cert_path.clone(), key_path: self.key_path.clone() }
    }
}

/// All settings of the process.
#[derive(Debug)]
pub struct Settings {
    pub database_url: String,
    pub server: ServerSettings,
    pub tls: Option<TlsSettings>,
    /// The secret that tokens are signed with. It must not be empty.
    pub jwt_secret: String,
    /// The patterns of the origins that may call, separated by `;`.
    pub cors_origin: String,
}

impl Clone for Settings {
    fn clone(&self) -> (r: Self)
        ensures
            r == *self,
    {
        Settings {
            database_url: self.database_url.clone(),
            server: self.server.clone(),
            tls: match &self.tls {
                Some(tls) => Some(tls.clone()),
                None => None,
            },
            jwt_secret: self.jwt_secret.clone(),
            cors_origin: self.cors_origin.clone(),
        }
    }
}

impl Settings {
    /// The key material of the process: the bytes of the configured secret.
    /// An empty secret is refused, so that a misconfigured process fails
    /// when it starts and not at its first request.
    pub fn keys(&self) -> (r: Result<Keys, KeyError>)
        ensures
            match r {
                Ok(keys) => self.jwt_secret@.len() > 0 && keys@ == vstd::utf8::encode_utf8(
                    self.jwt_secret@,
                ),
                Err(e) => self.jwt_secret@.len() == 0 && e == KeyError::EmptySecret,
            },
    {
        let secret = self.jwt_secret.as_str();
        proof {
            lemma_bytes_of_text(secret@);
        }
        Keys::new(secret.as_bytes())
    }
}

/// A text has no bytes exactly if it has no characters.
pub proof fn lemma_bytes_of_text(text: Seq<char>)
    ensures
        vstd::utf8::encode_utf8(text).len() == 0 <==> text.len() == 0,
{
    vstd::utf8::encode_utf8_decode_utf8(text);
    if text.len() == 0 {
        assert(vstd::utf8::encode_utf8(text).len() == 0);
    } else {
        if vstd::utf8::encode_utf8(text).len() == 0 {
            assert(vstd::utf8::encode_utf8(text) =~= Seq::<u8>::empty());
            assert(vstd::utf8::decode_utf8(Seq::<u8>::empty()).len() == 0);
        }
    }
}

} // verus!
