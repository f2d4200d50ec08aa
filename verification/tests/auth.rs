use apple_music_tui::auth::{
    auth_status_from_store, AuthError, AuthStatus, MemoryCredentialStore, SecretToken, Verification,
};

#[test]
fn secret_tokens_are_redacted_from_debug_and_display() {
    let token = SecretToken::new("sensitive-value".to_owned());

    assert_eq!(token.redacted(), "[REDACTED]");
    assert_eq!(token.redacted_debug(), "SecretToken([REDACTED])");
    assert!(!token.redacted_debug().contains("sensitive-value"));
}

#[test]
fn auth_status_is_not_collapsed_to_a_boolean() {
    assert_eq!(AuthStatus::NotConfigured.label(), "Not configured");
    assert_eq!(AuthStatus::AuthorizationRequired.label(), "Authorization required");
    assert_eq!(
        AuthStatus::Authenticated { storefront: "de".to_owned() }.label(),
        "Authenticated (de)"
    );
}

#[test]
fn fake_store_supports_missing_replace_and_delete() {
    let mut store = MemoryCredentialStore::new();
    assert!(store.load().expect("load").is_none());

    store.save(&SecretToken::new("first".to_owned())).expect("save first");
    store.save(&SecretToken::new("replacement".to_owned())).expect("replace");
    assert_eq!(store.load().expect("load").expect("token").expose(), "replacement");
    assert!(store.delete().expect("delete"));
    assert!(!store.delete().expect("already absent"));
}

#[test]
fn verification_retains_account_storefront() {
    assert_eq!(Verification { storefront: "de".to_owned() }.storefront, "de");
}

#[test]
fn credential_events_drive_auth_state_transitions() {
    assert_eq!(auth_status_from_store(&Ok(None)), AuthStatus::AuthorizationRequired);
    assert_eq!(
        auth_status_from_store(&Ok(Some(SecretToken::new("token".to_owned())))),
        AuthStatus::CredentialsStored
    );
    assert!(matches!(
        auth_status_from_store(&Err("Keychain access failed: denied".to_owned())),
        AuthStatus::Error(message) if message.contains("Keychain")
    ));
}

#[test]
fn api_verification_drives_authenticated_and_revoked_states() {
    assert_eq!(
        AuthStatus::from_verification(&Ok(Verification { storefront: "de".to_owned() })),
        AuthStatus::Authenticated { storefront: "de".to_owned() }
    );
    assert_eq!(
        AuthStatus::from_verification(&Err(AuthError::UserTokenRejected(403))),
        AuthStatus::ExpiredOrRevoked
    );
    assert!(matches!(
        AuthStatus::from_verification(&Err(AuthError::DeveloperTokenRejected(401))),
        AuthStatus::Error(message) if message.contains("Developer Token")
    ));
}

#[test]
fn auth_errors_carry_their_messages() {
    assert_eq!(
        AuthError::DeveloperTokenRejected(401).message(),
        "Apple rejected the Developer Token (HTTP 401)"
    );
    assert_eq!(
        AuthError::UserTokenRejected(403).message(),
        "Apple rejected or revoked the Music User Token (HTTP 403); run `apple-music-tui auth` again"
    );
    assert_eq!(
        AuthError::KeychainUnsupported.message(),
        "macOS Keychain is unavailable on this platform"
    );
    assert_eq!(
        AuthStatus::from_verification(&Err(AuthError::Network("offline".to_owned()))),
        AuthStatus::Error("Apple Music API request failed: offline".to_owned())
    );
}
