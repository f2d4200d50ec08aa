//! Authentication status shown to the user, and redacted secrets.
use vstd::prelude::*;

use crate::config::{spec_config_message, ConfigError};
use crate::text::{push_decimal, push_text, spec_decimal};

verus! {

#[derive(Clone, Debug, PartialEq, Eq)]
pub enum AuthStatus {
    NotConfigured,
    DeveloperTokenReady,
    AuthorizationRequired,
    CredentialsStored,
    Authenticated { storefront: String },
    ExpiredOrRevoked,
    Error(String),
}

/// The label of each status; an authenticated status names its storefront.
pub open spec fn spec_auth_label(status: AuthStatus) -> Seq<char> {
    match status {
        AuthStatus::NotConfigured => "Not configured"@,
        AuthStatus::DeveloperTokenReady => "Developer token ready"@,
        AuthStatus::AuthorizationRequired => "Authorization required"@,
        AuthStatus::CredentialsStored => "Credentials stored"@,
        AuthStatus::Authenticated { storefront } => "Authenticated ("@ + storefront@ + ")"@,
        AuthStatus::ExpiredOrRevoked => "Authorization expired or revoked"@,
        AuthStatus::Error(_) => "Authentication error"@,
    }
}

impl AuthStatus {
    pub fn label(&self) -> (r: String)
        ensures
            r@ == spec_auth_label(*self),
    {
        match self {
            AuthStatus::NotConfigured => "Not configured".to_owned(),
            AuthStatus::DeveloperTokenReady => "Developer token ready".to_owned(),
            AuthStatus::AuthorizationRequired => "Authorization required".to_owned(),
            AuthStatus::CredentialsStored => "Credentials stored".to_owned(),
            AuthStatus::Authenticated { storefront } => {
                let mut s = "Authenticated (".to_owned();
                push_text(&mut s, storefront.as_str());
                push_text(&mut s, ")");
                s
            },
            AuthStatus::ExpiredOrRevoked => "Authorization expired or revoked".to_owned(),
            AuthStatus::Error(_) => "Authentication error".to_owned(),
        }
    }

    /// The status after an account verification: the verified storefront, a revoked user
    /// token, or the error's message.
    pub fn from_verification(result: &Result<Verification, AuthError>) -> (r: AuthStatus)
        ensures
            result matches Ok(v) ==> (r matches AuthStatus::Authenticated { storefront } && storefront@
                == v.storefront@),
            result matches Err(AuthError::UserTokenRejected(_)) ==> r == AuthStatus::ExpiredOrRevoked,
            result matches Err(e) ==> (!(e is UserTokenRejected) ==> (r matches AuthStatus::Error(m) && m@
                == spec_auth_error_message(*e))),
    {
        match result {
            Ok(verification) => AuthStatus::Authenticated { storefront: verification.storefront.clone() },
            Err(AuthError::UserTokenRejected(_)) => AuthStatus::ExpiredOrRevoked,
            Err(error) => AuthStatus::Error(error.message()),
        }
    }
}

/// The account facts an Apple Music API verification returns.
#[derive(Clone, Debug, PartialEq, Eq)]
pub struct Verification {
    pub storefront: String,
}

/// Why authentication failed.  Failures that carry an operating system error carry its
/// text.
#[derive(Clone, Debug, PartialEq, Eq)]
pub enum AuthError {
    Config(ConfigError),
    NotConfigured(String),
    PrivateKeyRead(String),
    InvalidPrivateKey,
    Signing,
    InvalidSystemClock,
    KeychainUnsupported,
    Keychain(String),
    KeychainValueInvalid,
    UserTokenMissing,
    BrowserServer(String),
    BrowserTimeout,
    BrowserAuthorization(String),
    BrowserRejected,
    Network(String),
    DeveloperTokenRejected(u16),
    UserTokenRejected(u16),
    UnexpectedApiResponse(u16),
}

/// The message of each authentication failure.
pub open spec fn spec_auth_error_message(e: AuthError) -> Seq<char> {
    match e {
        AuthError::Config(c) => spec_config_message(c),
        AuthError::NotConfigured(p) => "Apple developer credentials are not configured; create "@ + p@,
        AuthError::PrivateKeyRead(m) => "could not read the Apple private key: "@ + m@,
        AuthError::InvalidPrivateKey => "the Apple private key is not a valid ES256 PKCS#8 PEM key"@,
        AuthError::Signing => "could not sign the Apple developer token"@,
        AuthError::InvalidSystemClock => "system clock is before the Unix epoch"@,
        AuthError::KeychainUnsupported => "macOS Keychain is unavailable on this platform"@,
        AuthError::Keychain(m) => "macOS Keychain operation failed: "@ + m@,
        AuthError::KeychainValueInvalid => "the Music User Token in Keychain is not valid UTF-8"@,
        AuthError::UserTokenMissing => "Music User Token is not present in Keychain; run `apple-music-tui auth`"@,
        AuthError::BrowserServer(m) => "could not start the loopback authorization helper: "@ + m@,
        AuthError::BrowserTimeout => "browser authorization timed out; run `apple-music-tui auth` again"@,
        AuthError::BrowserAuthorization(m) => "browser authorization failed: "@ + m@,
        AuthError::BrowserRejected => "MusicKit authorization was cancelled or rejected; run `apple-music-tui auth` again"@,
        AuthError::Network(m) => "Apple Music API request failed: "@ + m@,
        AuthError::DeveloperTokenRejected(s) => "Apple rejected the Developer Token (HTTP "@ + spec_decimal(s as nat) + ")"@,
        AuthError::UserTokenRejected(s) => "Apple rejected or revoked the Music User Token (HTTP "@ + spec_decimal(s as nat)
            + "); run `apple-music-tui auth` again"@,
        AuthError::UnexpectedApiResponse(s) => "Apple Music API returned an unexpected response (HTTP "@ + spec_decimal(s as nat)
            + ")"@,
    }
}

fn text_then(prefix: &str, value: &str) -> (r: String)
    ensures
        r@ == prefix@ + value@,
{
    let mut s = prefix.to_owned();
    push_text(&mut s, value);
    s
}

fn status_text(prefix: &str, status: u16, suffix: &str) -> (r: String)
    ensures
        r@ == prefix@ + spec_decimal(status as nat) + suffix@,
{
    let mut s = prefix.to_owned();
    push_decimal(&mut s, status as u64);
    push_text(&mut s, suffix);
    s
}

impl AuthError {
    /// The message shown for the failure.
    pub fn message(&self) -> (r: String)
        ensures
            r@ == spec_auth_error_message(*self),
    {
        match self {
            AuthError::Config(c) => c.message(),
            AuthError::NotConfigured(p) => text_then("Apple developer credentials are not configured; create ", p.as_str()),
            AuthError::PrivateKeyRead(m) => text_then("could not read the Apple private key: ", m.as_str()),
            AuthError::InvalidPrivateKey => "the Apple private key is not a valid ES256 PKCS#8 PEM key".to_owned(),
            AuthError::Signing => "could not sign the Apple developer token".to_owned(),
            AuthError::InvalidSystemClock => "system clock is before the Unix epoch".to_owned(),
            AuthError::KeychainUnsupported => "macOS Keychain is unavailable on this platform".to_owned(),
            AuthError::Keychain(m) => text_then("macOS Keychain operation failed: ", m.as_str()),
            AuthError::KeychainValueInvalid => "the Music User Token in Keychain is not valid UTF-8".to_owned(),
            AuthError::UserTokenMissing => "Music User Token is not present in Keychain; run `apple-music-tui auth`".to_owned(),
            AuthError::BrowserServer(m) => text_then("could not start the loopback authorization helper: ", m.as_str()),
            AuthError::BrowserTimeout => "browser authorization timed out; run `apple-music-tui auth` again".to_owned(),
            AuthError::BrowserAuthorization(m) => text_then("browser authorization failed: ", m.as_str()),
            AuthError::BrowserRejected => "MusicKit authorization was cancelled or rejected; run `apple-music-tui auth` again".to_owned(),
            AuthError::Network(m) => text_then("Apple Music API request failed: ", m.as_str()),
            AuthError::DeveloperTokenRejected(s) => status_text("Apple rejected the Developer Token (HTTP ", *s, ")"),
            AuthError::UserTokenRejected(s) => status_text(
                "Apple rejected or revoked the Music User Token (HTTP ",
                *s,
                "); run `apple-music-tui auth` again",
            ),
            AuthError::UnexpectedApiResponse(s) => status_text("Apple Music API returned an unexpected response (HTTP ", *s, ")"),
        }
    }
}

/// A secret that is never shown: its debug and display forms are redacted.
#[derive(Clone)]
pub struct SecretToken(String);

impl View for SecretToken {
    type V = Seq<char>;

    closed spec fn view(&self) -> Seq<char> {
        self.0@
    }
}

impl SecretToken {
    pub fn new(value: String) -> (r: SecretToken)
        ensures
            r@ == value@,
    {
        SecretToken(value)
    }

    /// A copy of the secret.
    pub fn duplicate(&self) -> (r: SecretToken)
        ensures
            r@ == self@,
    {
        SecretToken(self.0.clone())
    }

    /// The secret itself, for code that must hand it on.
    pub fn expose(&self) -> (r: &str)
        ensures
            r@ == self@,
    {
        self.0.as_str()
    }

    pub fn is_empty(&self) -> (r: bool)
        ensures
            r == (self@.len() == 0),
    {
        self.0.as_str().unicode_len() == 0
    }

    /// The display form, which never holds the secret.
    pub fn redacted(&self) -> (r: String)
        ensures
            r@ == "[REDACTED]"@,
    {
        "[REDACTED]".to_owned()
    }

    /// The debug form, which never holds the secret.
    pub fn redacted_debug(&self) -> (r: String)
        ensures
            r@ == "SecretToken([REDACTED])"@,
    {
        "SecretToken([REDACTED])".to_owned()
    }
}

/// The status that follows reading the credential store: a stored user token, none
/// stored yet, or the failure's message.
pub fn auth_status_from_store(result: &Result<Option<SecretToken>, String>) -> (r: AuthStatus)
    ensures
        result matches Ok(Some(_)) ==> r == AuthStatus::CredentialsStored,
        result matches Ok(None) ==> r == AuthStatus::AuthorizationRequired,
        result matches Err(m) ==> (r matches AuthStatus::Error(e) && e@ == m@),
{
    match result {
        Ok(Some(_)) => AuthStatus::CredentialsStored,
        Ok(None) => AuthStatus::AuthorizationRequired,
        Err(message) => AuthStatus::Error(message.clone()),
    }
}

/// A credential store held in memory, used where no system keychain is available.
#[derive(Default)]
pub struct MemoryCredentialStore {
    token: Option<SecretToken>,
}

impl MemoryCredentialStore {
    pub closed spec fn stored(&self) -> Option<Seq<char>> {
        match self.token {
            Some(t) => Some(t@),
            None => None,
        }
    }

    pub fn new() -> (r: Self)
        ensures
            r.stored() is None,
    {
        MemoryCredentialStore { token: None }
    }

    /// The stored token, if any.
    pub fn load(&self) -> (r: Result<Option<SecretToken>, String>)
        ensures
            r matches Ok(o) && (self.stored() is None <==> o is None) && (o matches Some(t) ==> Some(t@)
                == self.stored()),
    {
        match &self.token {
            Some(t) => Ok(Some(SecretToken(t.0.clone()))),
            None => Ok(None),
        }
    }

    /// Stores `token`, replacing any earlier one.
    pub fn save(&mut self, token: &SecretToken) -> (r: Result<(), String>)
        ensures
            r is Ok,
            final(self).stored() == Some(token@),
    {
        self.token = Some(SecretToken(token.0.clone()));
        Ok(())
    }

    /// Deletes the stored token; answers whether there was one.
    pub fn delete(&mut self) -> (r: Result<bool, String>)
        ensures
            r == Ok::<bool, String>(old(self).stored() is Some),
            final(self).stored() is None,
    {
        let had = self.token.is_some();
        self.token = None;
        Ok(had)
    }
}

} // verus!
