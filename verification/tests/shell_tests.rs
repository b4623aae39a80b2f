use mica_term::shell_integration::{
    build_shell_bootstrap, parse_detected_shell, parse_osc_payload, parse_private_action,
    parse_shell_integration_events, runtime_shell_events, shell_supports_integration, BootstrapOptions,
    MicaPrivateAction, ShellIntegrationEvent, ShellKind,
};
use mica_term::terminal_runtime::percent_decode_bytes;

#[test]
fn detects_the_login_shell_from_probe_output() {
    assert_eq!(parse_detected_shell(b"/bin/bash\n"), ShellKind::Bash);
    assert_eq!(parse_detected_shell(b"  /usr/bin/zsh  "), ShellKind::Zsh);
    assert_eq!(parse_detected_shell(b"/usr/local/bin/fish"), ShellKind::Fish);
    assert_eq!(parse_detected_shell(b"/bin/tcsh"), ShellKind::Unsupported("tcsh".into()));
    assert_eq!(parse_detected_shell(b""), ShellKind::Unsupported("unknown".into()));
    assert!(shell_supports_integration(&ShellKind::Fish));
    assert!(!shell_supports_integration(&ShellKind::Unsupported("sh".into())));
}

#[test]
fn parses_osc_payloads() {
    assert_eq!(parse_osc_payload("7;file://host/home/me"), Some(ShellIntegrationEvent::CurrentDirectory("/home/me".into())));
    assert_eq!(parse_osc_payload("133;A"), Some(ShellIntegrationEvent::PromptStart));
    assert_eq!(parse_osc_payload("133;D;2"), Some(ShellIntegrationEvent::CommandFinished(Some(2))));
    assert_eq!(parse_osc_payload("133;D"), Some(ShellIntegrationEvent::CommandFinished(None)));
    assert_eq!(parse_osc_payload("1337;CurrentDir=/tmp"), Some(ShellIntegrationEvent::CurrentDirectory("/tmp".into())));
    assert_eq!(
        parse_osc_payload("9001;mterm;edit;/etc/hosts"),
        Some(ShellIntegrationEvent::PrivateAction(MicaPrivateAction::EditPath("/etc/hosts".into())))
    );
    assert_eq!(parse_private_action("other;open;/x"), None);
    assert_eq!(parse_private_action("mterm;open;"), None);
    assert_eq!(parse_osc_payload("2;title"), None);
}

#[test]
fn scans_terminal_output_for_events() {
    let events = parse_shell_integration_events(b"a\x1b]133;A\x07b\x1b]7;file://h/srv\x1b\\c\x1b]133;B");
    assert_eq!(events, vec![ShellIntegrationEvent::PromptStart, ShellIntegrationEvent::CurrentDirectory("/srv".into())]);

    let parsed = runtime_shell_events(b"x\x1b]133;C\x07y\x1b]2;title\x07z\x1b]133;D;1\x07");
    assert_eq!(parsed.sanitized_bytes, b"xy\x1b]2;title\x07z".to_vec());
    assert!(parsed.command_started);
    assert!(parsed.command_finished);
    assert_eq!(parsed.command_finish_exit_code, Some(1));
}

#[test]
fn plain_output_passes_through_unchanged() {
    let plain = b"ls -la\r\ntotal 0\r\n".to_vec();
    let parsed = runtime_shell_events(&plain);
    assert_eq!(parsed.sanitized_bytes, plain);
    assert_eq!(parsed.cwd, None);
    assert!(!parsed.prompt_started && !parsed.command_started);
    assert!(parse_shell_integration_events(&plain).is_empty());
}

#[test]
fn unterminated_sequences_are_kept_as_output() {
    let parsed = runtime_shell_events(b"ok\x1b]133;A");
    assert_eq!(parsed.sanitized_bytes, b"ok\x1b]133;A".to_vec());
    assert!(!parsed.prompt_started);
}

#[test]
fn percent_decoding() {
    assert_eq!(percent_decode_bytes(b"/home/me"), Some(b"/home/me".to_vec()));
    assert_eq!(percent_decode_bytes(b"/my%20dir"), Some(b"/my dir".to_vec()));
    assert_eq!(percent_decode_bytes(b"/bad%2"), None);
    assert_eq!(percent_decode_bytes(b"/bad%zz"), None);
}

#[test]
fn bootstraps_exist_only_for_supported_shells() {
    let options = BootstrapOptions::default();
    let bash = build_shell_bootstrap(ShellKind::Bash, options.clone());
    assert!(bash.contains("export TERM_PROGRAM=mica-term"));
    assert!(bash.contains("MICA_TERM_ENHANCED=1"));
    assert!(!build_shell_bootstrap(ShellKind::Fish, options.clone()).is_empty());
    assert!(build_shell_bootstrap(ShellKind::Unsupported("sh".into()), options).is_empty());
}
