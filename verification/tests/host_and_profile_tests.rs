use mica_term::credentials::{
    lookup_outcome, merge_edit_bundle, non_empty_secret, persist_action, required_secret_bundle_field,
    restore_snapshot_action, snapshot_of_loaded_bundle, ssh_credential_ref, SecretStoreAction, SshCredentialKind,
    StoredSecretLookupError, StoredSshSecretBundle,
};
use mica_term::known_hosts::{
    accept_unknown_entries, check_known_host, ensure_trusted, host_pattern, is_known_host_entry_line,
    parse_known_host_line, render_known_hosts, HostKeyRejection, KnownHostCheck, KnownHostEntry,
};
use mica_term::ssh_assets::{AssetNode, AssetSshConnectionDraft, AssetSshConnectionSpec, AssetTree, ConnectionProxyProfile};
use mica_term::ssh_profile::{
    next_chain_target, resolve_proxy_chain, ConnectionProfile, ProfileError, ProxyChainError, ResolvedProxyHop,
    SshAuthMethod,
};
use mica_term::transfer_store::{
    check_schema_version, decode_schema_version, encode_schema_version, is_removable_task_state, RedbTransferStore,
    TransferStoreError, TRANSFER_STORE_SCHEMA_VERSION,
};
use mica_term::sftp_queue::TransferTaskState;

fn entry(pattern: &str, key: &str, fingerprint: &str) -> KnownHostEntry {
    KnownHostEntry { host_pattern: pattern.to_string(), public_key: key.to_string(), fingerprint: fingerprint.to_string() }
}

fn password_draft() -> AssetSshConnectionDraft {
    AssetSshConnectionDraft {
        name: " Prod ".into(),
        host: " prod.example.com ".into(),
        user: "ops".into(),
        port: "".into(),
        auth_method: "password".into(),
        password: "secret".into(),
        ..AssetSshConnectionDraft::default()
    }
}

fn spec(host: &str, proxy: ConnectionProxyProfile) -> AssetSshConnectionSpec {
    AssetSshConnectionSpec {
        host: host.into(),
        user: "ops".into(),
        port: "2222".into(),
        auth_method: "password".into(),
        private_key_source: String::new(),
        private_key_path: String::new(),
        credential_ref: None,
        remark: String::new(),
        proxy,
    }
}

fn node(id: &str, proxy: ConnectionProxyProfile) -> AssetNode {
    AssetNode { id: id.into(), title: format!("Host {id}"), ssh: Some(spec(&format!("{id}.example.com"), proxy)) }
}

#[test]
fn host_patterns_bracket_host_and_port() {
    assert_eq!(host_pattern("example.com", 22), "[example.com]:22");
    assert_eq!(host_pattern("10.0.0.1", 2222), "[10.0.0.1]:2222");
}

#[test]
fn accepted_key_is_trusted_and_other_keys_are_changes() {
    let entries = vec![entry("[a]:22", "key-a", "fp-a"), entry("[b]:22", "old-b", "fp-old-b")];
    assert_eq!(
        check_known_host(&entries, "c", 22, "key-c", "fp-c"),
        KnownHostCheck::Unknown { fingerprint: "fp-c".into() }
    );
    let accepted = accept_unknown_entries(entries, "b", 22, "new-b", "fp-new-b");
    assert_eq!(accepted.len(), 2);
    assert_eq!(accepted[0], entry("[a]:22", "key-a", "fp-a"));
    assert_eq!(check_known_host(&accepted, "b", 22, "new-b", "fp-x"), KnownHostCheck::Trusted);
    assert_eq!(
        check_known_host(&accepted, "b", 22, "evil", "fp-evil"),
        KnownHostCheck::Changed { expected: "fp-new-b".into(), actual: "fp-evil".into() }
    );
    assert_eq!(check_known_host(&accepted, "a", 22, "key-a", "fp-a"), KnownHostCheck::Trusted);
}

#[test]
fn untrusted_keys_are_rejected_with_messages() {
    assert_eq!(ensure_trusted(KnownHostCheck::Trusted, "h", 22), Ok(()));
    let unknown = ensure_trusted(KnownHostCheck::Unknown { fingerprint: "SHA256:x".into() }, "h", 22).unwrap_err();
    assert_eq!(
        unknown.message(),
        "unknown SSH host key for `h:22` (SHA256:x); explicit accept is required before connecting"
    );
    let changed = ensure_trusted(
        KnownHostCheck::Changed { expected: "old".into(), actual: "new".into() },
        "h",
        2200,
    )
    .unwrap_err();
    assert_eq!(changed, HostKeyRejection::Changed { host: "h".into(), port: 2200, expected: "old".into(), actual: "new".into() });
    assert_eq!(changed.message(), "SSH host key changed for `h:2200` (expected old, got new)");
}

#[test]
fn known_hosts_lines_parse_and_render() {
    assert!(is_known_host_entry_line("  [a]:22 ssh-ed25519 AAAA"));
    assert!(!is_known_host_entry_line("   "));
    assert!(!is_known_host_entry_line("# comment"));
    assert_eq!(
        parse_known_host_line(" [a]:22   ssh-ed25519 AAAA  "),
        Ok(("[a]:22".to_string(), "ssh-ed25519 AAAA".to_string()))
    );
    assert!(parse_known_host_line("[a]:22").is_err());
    let text = render_known_hosts(&[entry("[a]:22", "k1", "f1"), entry("[b]:22", "k2", "f2")]);
    assert_eq!(text, "[a]:22 k1\n[b]:22 k2\n");
}

#[test]
fn draft_profiles_normalise_and_validate() {
    let profile = ConnectionProfile::from_draft(&password_draft()).expect("valid draft");
    assert_eq!(profile.name, "Prod");
    assert_eq!(profile.host, "prod.example.com");
    assert_eq!(profile.port, 22);
    assert_eq!(profile.auth_method, SshAuthMethod::Password);
    assert_eq!(profile.credential_ref.as_deref(), Some("draft://ssh-password/ops@prod.example.com:22"));
    assert_eq!(profile.password.as_deref(), Some("secret"));
    assert!(profile.resolved_proxy_hops.is_empty());

    let mut bad_port = password_draft();
    bad_port.port = " 70000 ".into();
    assert_eq!(ConnectionProfile::from_draft(&bad_port), Err(ProfileError::InvalidPort { port: "70000".into() }));
    assert_eq!(ProfileError::InvalidPort { port: "70000".into() }.message(), "invalid ssh port: 70000");

    let mut no_password = password_draft();
    no_password.password = "  ".into();
    assert_eq!(ConnectionProfile::from_draft(&no_password), Err(ProfileError::PasswordRequired));
    let reused = ConnectionProfile::from_draft_with_saved_secret_ref(&no_password, Some("saved-ref".into())).unwrap();
    assert_eq!(reused.credential_ref.as_deref(), Some("saved-ref"));

    let mut unknown = password_draft();
    unknown.auth_method = "kerberos".into();
    assert_eq!(
        ConnectionProfile::from_draft(&unknown),
        Err(ProfileError::UnsupportedAuthMethod { method: "kerberos".into() })
    );
}

#[test]
fn saved_profiles_use_saved_credential_refs() {
    let profile = ConnectionProfile::from_saved_asset("asset-1", "Prod", &spec("prod", ConnectionProxyProfile::Direct)).unwrap();
    assert_eq!(profile.asset_id.as_deref(), Some("asset-1"));
    assert_eq!(profile.port, 2222);
    assert_eq!(profile.credential_ref.as_deref(), Some("ssh/saved-secrets/asset-1"));
    assert_eq!(ssh_credential_ref("x", SshCredentialKind::SavedSecrets), "ssh/saved-secrets/x");
    assert_eq!(ConnectionProfile::from_saved_asset("asset-1", "  ", &spec("prod", ConnectionProxyProfile::Direct)), Err(ProfileError::NameRequired));
}

#[test]
fn proxy_chains_resolve_outermost_first_and_detect_cycles() {
    let tree = AssetTree {
        nodes: vec![
            node("outer", ConnectionProxyProfile::Direct),
            node("inner", ConnectionProxyProfile::SshAsset { asset_id: "outer".into() }),
            node("loop-a", ConnectionProxyProfile::SshAsset { asset_id: "loop-b".into() }),
            node("loop-b", ConnectionProxyProfile::SshAsset { asset_id: "loop-a".into() }),
        ],
    };
    let mut profile = ConnectionProfile::from_draft(&password_draft()).unwrap();
    profile.proxy = ConnectionProxyProfile::SshAsset { asset_id: "inner".into() };
    let hops = resolve_proxy_chain(&tree, &profile, 8).expect("chain resolves");
    assert_eq!(hops.len(), 2);
    match (&hops[0], &hops[1]) {
        (ResolvedProxyHop::Ssh(first), ResolvedProxyHop::Ssh(second)) => {
            assert_eq!(first.host, "outer.example.com");
            assert_eq!(second.host, "inner.example.com");
        }
        _ => panic!("expected two SSH hops"),
    }
    assert_eq!(resolve_proxy_chain(&tree, &profile, 1), Err(ProxyChainError::TooDeep));

    profile.proxy = ConnectionProxyProfile::SshAsset { asset_id: "loop-a".into() };
    assert_eq!(resolve_proxy_chain(&tree, &profile, 8), Err(ProxyChainError::Cycle));
    profile.proxy = ConnectionProxyProfile::SshAsset { asset_id: "missing".into() };
    let missing = resolve_proxy_chain(&tree, &profile, 8).unwrap_err();
    assert_eq!(missing, ProxyChainError::AssetNotFound { asset_id: "missing".into() });
    assert_eq!(missing.message(), "upstream SSH asset `missing` was not found");

    profile.resolved_proxy_hops = hops;
    assert_eq!(next_chain_target(&profile, 0), Some(("inner.example.com".to_string(), 2222)));
    assert_eq!(next_chain_target(&profile, 1), Some(("prod.example.com".to_string(), 22)));
}

#[test]
fn secret_bundles_keep_only_the_method_secrets() {
    let merged = merge_edit_bundle(StoredSshSecretBundle::default(), &password_draft());
    assert_eq!(merged.password.as_deref(), Some("secret"));
    assert_eq!(merged.private_key_content, None);
    assert_eq!(non_empty_secret("  "), None);
    assert!(StoredSshSecretBundle::empty().is_empty());

    let bundle = StoredSshSecretBundle { password: Some("pw".into()), ..StoredSshSecretBundle::default() };
    assert_eq!(required_secret_bundle_field(&bundle, "ref", "password"), Ok("pw".to_string()));
    assert_eq!(
        required_secret_bundle_field(&bundle, "ref", "passphrase"),
        Err(StoredSecretLookupError::EmptyBundleField { credential_ref: "ref".into(), field: "passphrase".into() })
    );
    assert_eq!(
        persist_action("ref", &bundle),
        SecretStoreAction::Persist { credential_ref: "ref".into(), bundle: bundle.clone() }
    );
    assert_eq!(persist_action("ref", &StoredSshSecretBundle::empty()), SecretStoreAction::Delete { credential_ref: "ref".into() });
    assert_eq!(restore_snapshot_action(None, Some(&bundle)), SecretStoreAction::Nothing);
    assert_eq!(snapshot_of_loaded_bundle(Some("ref"), StoredSshSecretBundle::empty()), None);
}

#[test]
fn secret_lookup_reports_each_failure() {
    assert_eq!(lookup_outcome(None, Ok(None), None), Err(StoredSecretLookupError::MissingCredentialRef));
    assert_eq!(
        lookup_outcome(Some("r"), Ok(None), None),
        Err(StoredSecretLookupError::MissingEntry { credential_ref: "r".into() })
    );
    assert_eq!(
        lookup_outcome(Some("r"), Err("denied".into()), None),
        Err(StoredSecretLookupError::ReadFailed { credential_ref: "r".into(), message: "denied".into() })
    );
    let legacy = lookup_outcome(Some("r"), Ok(Some("plain".into())), None).unwrap();
    assert_eq!(legacy.password.as_deref(), Some("plain"));
}

#[test]
fn schema_versions_round_trip_through_eight_bytes() {
    let bytes = encode_schema_version(0x0102_0304_0506_0708);
    assert_eq!(bytes, vec![8, 7, 6, 5, 4, 3, 2, 1]);
    assert_eq!(decode_schema_version(&bytes), Ok(0x0102_0304_0506_0708));
    assert_eq!(decode_schema_version(&encode_schema_version(u64::MAX)), Ok(u64::MAX));
    assert_eq!(decode_schema_version(&[1, 2, 3]), Err(TransferStoreError::InvalidSchemaVersionPayload));
    assert_eq!(check_schema_version(None), Ok(TRANSFER_STORE_SCHEMA_VERSION));
    assert_eq!(
        check_schema_version(Some(TRANSFER_STORE_SCHEMA_VERSION + 1)),
        Err(TransferStoreError::NewerSchema { found: TRANSFER_STORE_SCHEMA_VERSION + 1, supported: TRANSFER_STORE_SCHEMA_VERSION })
    );
    assert!(is_removable_task_state(TransferTaskState::Completed));
    assert!(is_removable_task_state(TransferTaskState::Cancelled));
    assert!(!is_removable_task_state(TransferTaskState::Running));
    assert_eq!(RedbTransferStore::new("/data".into()).database_path, "/data/transfers.redb");
}
