use mica_term::credentials::{StoredSecretLookupError, StoredSshSecretBundle};
use mica_term::ssh_assets::AssetSshConnectionDraft;
use mica_term::ssh_auth::{
    auth_rejected_message, needs_stored_secrets, resolve_auth_material, secret_label, stored_bundle_for_profile,
    stored_secret_lookup_message, AuthMaterial, AuthPlanError,
};
use mica_term::ssh_profile::{ConnectionProfile, SshAuthMethod};

fn profile(method: SshAuthMethod) -> ConnectionProfile {
    let draft = AssetSshConnectionDraft {
        name: "Prod".into(),
        host: "prod".into(),
        user: "ops".into(),
        auth_method: "password".into(),
        password: "pw".into(),
        ..AssetSshConnectionDraft::default()
    };
    let mut p = ConnectionProfile::from_draft(&draft).unwrap();
    p.auth_method = method;
    p.password = None;
    p.credential_ref = Some("ssh/saved-secrets/prod".into());
    p
}

fn bundle(password: Option<&str>, key: Option<&str>, passphrase: Option<&str>) -> StoredSshSecretBundle {
    StoredSshSecretBundle {
        password: password.map(str::to_string),
        private_key_content: key.map(str::to_string),
        passphrase: passphrase.map(str::to_string),
        proxy_socks5_password: None,
    }
}

#[test]
fn lookup_failures_name_the_secret_and_profile() {
    let p = profile(SshAuthMethod::Password);
    assert_eq!(
        stored_secret_lookup_message(&p, "SSH password secret", &StoredSecretLookupError::MissingCredentialRef),
        "missing credential binding for SSH password secret on `Prod`"
    );
    assert_eq!(
        stored_secret_lookup_message(
            &p,
            "SSH password secret",
            &StoredSecretLookupError::EmptyBundleField { credential_ref: "r".into(), field: "password".into() }
        ),
        "saved entry `r` for `Prod` is missing field `password` required by SSH password secret"
    );
    assert_eq!(
        stored_secret_lookup_message(
            &p,
            "X",
            &StoredSecretLookupError::ReadFailed { credential_ref: "r".into(), message: "denied".into() }
        ),
        "failed to read saved entry `r` for X on `Prod`: denied"
    );
    assert_eq!(auth_rejected_message("password"), "SSH authentication was rejected for password");
    assert_eq!(secret_label(SshAuthMethod::PrivateKeyPath), "SSH passphrase secret");
}

#[test]
fn password_logins_use_the_saved_password_when_none_is_at_hand() {
    let p = profile(SshAuthMethod::Password);
    assert_eq!(needs_stored_secrets(&p), Ok(true));
    let stored = stored_bundle_for_profile(&p, Ok(Some("legacy-pw".into())), None);
    assert_eq!(stored, Ok(Some(("ssh/saved-secrets/prod".to_string(), bundle(Some("legacy-pw"), None, None)))));
    assert_eq!(resolve_auth_material(&p, stored), Ok(AuthMaterial::Password { password: "legacy-pw".into() }));
    let missing = resolve_auth_material(&p, Ok(None)).unwrap_err();
    assert_eq!(missing.message(), "missing credential binding for SSH password secret on `Prod`");
    let empty = resolve_auth_material(&p, Ok(Some(("r".into(), bundle(Some("  "), None, None))))).unwrap_err();
    assert_eq!(empty.message(), "saved entry `r` for `Prod` is missing field `password` required by SSH password secret");
    let mut typed = profile(SshAuthMethod::Password);
    typed.password = Some("typed".into());
    assert_eq!(needs_stored_secrets(&typed), Ok(false));
    assert_eq!(
        resolve_auth_material(&typed, Err(StoredSecretLookupError::MissingCredentialRef)),
        Ok(AuthMaterial::Password { password: "typed".into() })
    );
}

#[test]
fn key_file_logins_need_a_path_and_may_use_a_saved_passphrase() {
    let mut p = profile(SshAuthMethod::PrivateKeyPath);
    assert_eq!(needs_stored_secrets(&p), Err(AuthPlanError::MissingPrivateKeyPath { profile_name: "Prod".into() }));
    assert_eq!(
        resolve_auth_material(&p, Ok(None)).unwrap_err().message(),
        "missing private key path for `Prod`"
    );
    p.private_key_path = Some("/keys/id".into());
    assert_eq!(needs_stored_secrets(&p), Ok(true));
    assert_eq!(
        resolve_auth_material(&p, Ok(Some(("r".into(), bundle(None, None, Some("saved-pass")))))),
        Ok(AuthMaterial::PrivateKeyPath { path: "/keys/id".into(), passphrase: Some("saved-pass".into()) })
    );
    assert_eq!(
        resolve_auth_material(&p, Ok(None)),
        Ok(AuthMaterial::PrivateKeyPath { path: "/keys/id".into(), passphrase: None })
    );
    let failed = resolve_auth_material(&p, Err(StoredSecretLookupError::MissingEntry { credential_ref: "r".into() }));
    assert_eq!(failed.unwrap_err().message(), "missing saved entry `r` for SSH passphrase secret on `Prod`");
}

#[test]
fn inline_key_logins_read_older_bundles_saved_as_passwords() {
    let p = profile(SshAuthMethod::PrivateKeyContent);
    let stored = stored_bundle_for_profile(&p, Ok(Some("-----KEY-----".into())), None);
    assert_eq!(stored, Ok(Some(("ssh/saved-secrets/prod".to_string(), bundle(None, Some("-----KEY-----"), None)))));
    assert_eq!(
        resolve_auth_material(&p, stored),
        Ok(AuthMaterial::PrivateKeyContent { content: "-----KEY-----".into(), passphrase: None })
    );
    let modern = stored_bundle_for_profile(&p, Ok(Some("{}".into())), Some(bundle(Some("x"), Some("KEY"), Some("pp"))));
    assert_eq!(
        resolve_auth_material(&p, modern),
        Ok(AuthMaterial::PrivateKeyContent { content: "KEY".into(), passphrase: Some("pp".into()) })
    );
    let mut no_ref = profile(SshAuthMethod::PrivateKeyContent);
    no_ref.credential_ref = None;
    assert_eq!(stored_bundle_for_profile(&no_ref, Ok(None), None), Ok(None));
    assert_eq!(
        stored_bundle_for_profile(&p, Ok(None), None),
        Err(StoredSecretLookupError::MissingEntry { credential_ref: "ssh/saved-secrets/prod".into() })
    );
}
