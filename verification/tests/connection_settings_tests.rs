use mica_term::credentials::{
    primary_delete_failure_context, primary_read_settles, primary_write_failure_context, restore_snapshot_action,
    snapshot_of_loaded_bundle, SecretStoreAction, StoredSshSecretBundle,
};
use mica_term::known_hosts::{server_key_verdict, KnownHostCheck, ServerKeyVerdict, UnknownHostKeyError};
use mica_term::sftp_browser_session::{BrowserSessionIds, FileBrowserSession, HostProfileRef};
use mica_term::shell_integration::{parse_detected_shell, ShellKind};
use mica_term::ssh_profile::{ssh_client_config, SSH_KEEPALIVE_INTERVAL_SECS, SSH_KEEPALIVE_MAX_MISSES};
use mica_term::zmodem_controller::upload_sizes_fit;
use mica_term::zmodem_progress::UploadFile;

#[test]
fn ssh_client_config_uses_keepalive_without_inactivity_disconnects() {
    let config = ssh_client_config();

    assert_eq!(config.inactivity_timeout_secs, None);
    assert_eq!(config.keepalive_interval_secs, Some(SSH_KEEPALIVE_INTERVAL_SECS));
    assert_eq!(config.keepalive_max, SSH_KEEPALIVE_MAX_MISSES);
    assert!(config.nodelay);
    assert_eq!(SSH_KEEPALIVE_INTERVAL_SECS, 15);
    assert_eq!(SSH_KEEPALIVE_MAX_MISSES, 3);
}

#[test]
fn server_key_verdict_follows_the_known_hosts_check() {
    assert_eq!(server_key_verdict(KnownHostCheck::Trusted, "prod", 22), ServerKeyVerdict::Trusted);
    assert_eq!(
        server_key_verdict(KnownHostCheck::Unknown { fingerprint: "SHA256:abc".into() }, "prod", 22),
        ServerKeyVerdict::Unknown { fingerprint: "SHA256:abc".into() }
    );
    assert_eq!(
        server_key_verdict(
            KnownHostCheck::Changed { expected: "SHA256:old".into(), actual: "SHA256:new".into() },
            "prod",
            2222
        ),
        ServerKeyVerdict::Changed {
            message: "SSH host key changed for `prod`:2222 (expected SHA256:old, got SHA256:new)".into()
        }
    );
}

#[test]
fn unknown_host_key_error_names_host_port_and_fingerprint() {
    let err = UnknownHostKeyError {
        host: "prod".into(),
        port: 22,
        fingerprint: "SHA256:abc".into(),
        public_key_openssh: "ssh-ed25519 AAAA".into(),
    };
    assert_eq!(err.message(), "unknown SSH host key for `prod`:22 (SHA256:abc)");
}

#[test]
fn browser_session_ids_are_handed_out_in_turn() {
    let mut ids = BrowserSessionIds::new();
    let quick = FileBrowserSession::new_quick_browser(HostProfileRef::new("asset-1"), "/srv", &mut ids);
    let tab = quick.clone_for_workspace_with(&mut ids);
    assert_eq!(quick.file_browser_session_id, "browser-session-1");
    assert_eq!(tab.file_browser_session_id, "browser-session-2");
    assert_ne!(quick.file_browser_session_id, tab.file_browser_session_id);
    assert_eq!(tab.current_path, "/srv");
    assert_eq!(tab.host_profile_ref, quick.host_profile_ref);
    assert_eq!(ids.peek(), 3);
}

#[test]
fn fallback_store_reads_and_messages() {
    assert_eq!(primary_read_settles(Ok(Some("s3cret".into()))), Some("s3cret".to_string()));
    assert_eq!(primary_read_settles(Ok(None)), None);
    assert_eq!(primary_read_settles(Err("locked".into())), None);
    assert_eq!(
        primary_write_failure_context("ssh/a", "locked"),
        "primary credential store failed for key `ssh/a`: locked"
    );
    assert_eq!(
        primary_delete_failure_context("ssh/a", "locked"),
        "primary credential store failed to delete key `ssh/a`: locked"
    );
}

#[test]
fn snapshot_then_restore_puts_back_what_was_loaded() {
    let loaded = StoredSshSecretBundle {
        password: Some("pw".into()),
        private_key_content: None,
        passphrase: None,
        proxy_socks5_password: None,
    };
    let snapshot = snapshot_of_loaded_bundle(Some("ssh/a"), loaded.clone());
    assert_eq!(snapshot, Some(loaded.clone()));
    assert_eq!(
        restore_snapshot_action(Some("ssh/a"), snapshot.as_ref()),
        SecretStoreAction::Persist { credential_ref: "ssh/a".into(), bundle: loaded }
    );
    let empty = snapshot_of_loaded_bundle(Some("ssh/a"), StoredSshSecretBundle::empty());
    assert_eq!(empty, None);
    assert_eq!(
        restore_snapshot_action(Some("ssh/a"), empty.as_ref()),
        SecretStoreAction::Delete { credential_ref: "ssh/a".into() }
    );
}

#[test]
fn detected_shell_from_valid_utf8_bytes() {
    assert_eq!(parse_detected_shell(b"/usr/bin/zsh\n"), ShellKind::Zsh);
    assert_eq!(parse_detected_shell(b"  /bin/bash  "), ShellKind::Bash);
}

#[test]
fn upload_sizes_fit_in_64_bits() {
    let file = |size: u64| UploadFile { path: "a".into(), display_name: "a".into(), size_bytes: size };
    assert!(upload_sizes_fit(&vec![file(1), file(2)]));
    assert!(upload_sizes_fit(&vec![]));
    assert!(!upload_sizes_fit(&vec![file(u64::MAX), file(1)]));
}
