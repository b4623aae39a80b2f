pub mod text;
pub mod numbers;
pub mod bytes;
pub mod shell_integration;
pub mod terminal_contracts;
pub mod zmodem_model;
pub mod output_pump;
pub mod terminal_runtime;
pub mod connection_progress;
pub mod ssh_assets;
pub mod credentials;
pub mod ssh_profile;
pub mod known_hosts;
pub mod sftp_local;
pub mod sftp_clipboard;
pub mod transfer_store;
pub mod session_types;
pub mod terminal_atlas_model;
pub mod remote_paths;
pub mod sftp_model;
pub mod format;
pub mod sftp_browser_state;
pub mod sftp_browser_session;
pub mod ids;
pub mod sftp_browser_controller;
pub mod seqs;
pub mod sftp_queue;
pub mod sftp_transfers;
pub mod credential_crypto;
pub mod zmodem_scan;
pub mod zmodem_progress;
pub mod remote_probe;
pub mod exec_transfer_slot;
pub mod exec_upload;
pub mod local_sources;
pub mod runtime_events;
pub mod connection_attempts;
pub mod session_titles;
pub mod proxy_protocol;
pub mod ssh_auth;
pub mod zmodem_controller;
