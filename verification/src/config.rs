//! The signing secret and where it comes from.
//!
//! One secret signs and verifies every token. It is handed in from the
//! process configuration. A deployment in production must name one, and not
//! the well-known default; only a development setup may fall back to it.

use crate::text::same_text;
use vstd::prelude::*;

verus! {

/// The secret that signs and verifies tokens. It is never empty.
pub struct SigningSecret {
    bytes: Vec<u8>,
}

impl View for SigningSecret {
    type V = Seq<u8>;

    closed spec fn view(&self) -> Seq<u8> {
        self.bytes@
    }
}

/// In what posture the process runs.
#[derive(Clone, Copy, Debug, PartialEq, Eq, Structural)]
pub enum Posture {
    Development,
    Production,
}

/// Why no secret could be had from the configuration.
#[derive(Clone, Copy, Debug, PartialEq, Eq, Structural)]
pub enum ConfigError {
    /// Production, and no secret is configured.
    MissingSecret,
    /// The configured secret is empty.
    EmptySecret,
    /// Production, and the configured secret is the well-known default.
    DefaultSecret,
}

/// The secret a development setup falls back to.
pub open spec fn default_secret() -> Seq<char> {
    "disaster"@
}

/// The bytes of a text, in UTF-8.
pub open spec fn bytes_of(text: Seq<char>) -> Seq<u8> {
    vstd::utf8::encode_utf8(text)
}

/// The secret that the configuration yields, as bytes.
pub open spec fn resolved(configured: Option<Seq<char>>, posture: Posture) -> Result<
    Seq<u8>,
    ConfigError,
> {
    match configured {
        None => if posture == Posture::Production {
            Err(ConfigError::MissingSecret)
        } else {
            Ok(bytes_of(default_secret()))
        },
        Some(text) => if bytes_of(text).len() == 0 {
            Err(ConfigError::EmptySecret)
        } else if posture == Posture::Production && text == default_secret() {
            Err(ConfigError::DefaultSecret)
        } else {
            Ok(bytes_of(text))
        },
    }
}

/// The default secret is eight bytes long.
pub proof fn default_secret_is_not_empty()
    ensures
        bytes_of(default_secret()).len() == 8,
{
    reveal_strlit("disaster");
    assert(vstd::utf8::is_ascii_chars(default_secret()));
    vstd::utf8::is_ascii_chars_encode_utf8(default_secret());
}

/// The mathematical value of a resolved secret.
pub open spec fn resolved_view(r: Result<SigningSecret, ConfigError>) -> Result<
    Seq<u8>,
    ConfigError,
> {
    match r {
        Ok(s) => Ok(s@),
        Err(e) => Err(e),
    }
}

impl SigningSecret {
    #[verifier::type_invariant]
    spec fn never_empty(self) -> bool {
        self.bytes@.len() > 0
    }

    /// Takes `bytes` as the secret, unless there are none.
    pub fn new(bytes: Vec<u8>) -> (r: Option<SigningSecret>)
        ensures
            match r {
                Some(s) => bytes@.len() > 0 && s@ == bytes@,
                None => bytes@.len() == 0,
            },
    {
        if bytes.len() == 0 {
            None
        } else {
            Some(SigningSecret { bytes })
        }
    }

    /// The secret's bytes.
    pub fn as_bytes(&self) -> (r: &[u8])
        ensures
            r@ == self@,
            r@.len() > 0,
    {
        proof {
            use_type_invariant(self);
        }
        self.bytes.as_slice()
    }
}

/// Settles the signing secret from what the configuration holds.
///
/// In production a missing secret and the well-known default are refused.
/// In development a missing secret falls back to the default. An empty
/// secret is refused everywhere.
pub fn resolve_secret(configured: Option<&str>, posture: Posture) -> (r: Result<
    SigningSecret,
    ConfigError,
>)
    ensures
        resolved_view(r) == resolved(crate::bearer::slice_view(configured), posture),
{
    match configured {
        None => match posture {
            Posture::Production => Err(ConfigError::MissingSecret),
            Posture::Development => {
                let bytes: Vec<u8> = "disaster".as_bytes_vec();
                proof {
                    default_secret_is_not_empty();
                }
                match SigningSecret::new(bytes) {
                    Some(s) => Ok(s),
                    None => Err(ConfigError::EmptySecret),
                }
            },
        },
        Some(text) => {
            let bytes: Vec<u8> = text.as_bytes_vec();
            if bytes.len() == 0 {
                return Err(ConfigError::EmptySecret);
            }
            let is_default: bool = same_text(text, "disaster");
            match posture {
                Posture::Production => if is_default {
                    return Err(ConfigError::DefaultSecret);
                },
                Posture::Development => {},
            }
            match SigningSecret::new(bytes) {
                Some(s) => Ok(s),
                None => Err(ConfigError::EmptySecret),
            }
        },
    }
}

} // verus!
