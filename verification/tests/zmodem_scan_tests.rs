use mica_term::zmodem_model::{ZmodemTransferDirection, ZmodemTransferPhase};
use mica_term::zmodem_scan::{
    automatic_rz_echo_candidate_suffix_len, initial_transfer_state, validate_initial_header, ScanOutcome,
    ZmodemPrefixScanner,
};

const TERMINAL_ERASE_CELL: &[u8] = b"\x08 \x08";
const ZRQINIT_PREFIX: &[u8] = b"**\x18B00";
const ZRINIT_PREFIX: &[u8] = b"**\x18B01";

fn initial_header(direction: ZmodemTransferDirection) -> Vec<u8> {
    let wire = match direction {
        ZmodemTransferDirection::Upload => {
            let mut receiver = zmodem2::Receiver::new().expect("create receiver");
            match receiver.poll() {
                zmodem2::Action::WriteWire(bytes) => bytes.to_vec(),
                _ => panic!("unexpected receiver initialization action"),
            }
        }
        ZmodemTransferDirection::Download => {
            let mut sender = zmodem2::Sender::new().expect("create sender");
            match sender.poll() {
                zmodem2::Action::WriteWire(bytes) => bytes.to_vec(),
                _ => panic!("unexpected sender initialization action"),
            }
        }
    };
    assert!(wire.len() >= 18, "initial ZHEX header was too short");
    wire[..18].to_vec()
}

fn feed(scanner: &mut ZmodemPrefixScanner, bytes: &[u8], started: &mut Option<ZmodemTransferDirection>) -> Vec<u8> {
    let ScanOutcome { terminal_bytes, started: start } = scanner.scan(bytes);
    if let Some((direction, _)) = start {
        *started = Some(direction);
    }
    terminal_bytes
}

#[test]
fn preserves_partial_prefix_suffixes_between_batches() {
    let mut scanner = ZmodemPrefixScanner::new();
    let first = scanner.scan(b"plain**\x18").terminal_bytes;
    assert_eq!(first, b"plain**".to_vec());
    assert_eq!(scanner.flush(), b"\x18".to_vec());
}

#[test]
fn ordinary_star_candidates_are_visible_without_waiting_for_enter() {
    for input in [b"*".as_slice(), b"**", b"***", b"*.log", b"a*b", b"'*'", b"\\*", b"paste:**"] {
        let mut scanner = ZmodemPrefixScanner::new();
        assert_eq!(
            scanner.scan(input).terminal_bytes,
            input,
            "ordinary star bytes were not visible immediately for {input:?}"
        );
        assert!(scanner.flush().is_empty());
    }
}

#[test]
fn local_input_never_discards_tentative_remote_bytes() {
    let input = b"**\x18B0";
    let mut scanner = ZmodemPrefixScanner::new();
    let mut terminal_bytes = scanner.scan(input).terminal_bytes;
    scanner.note_local_input();
    terminal_bytes.extend(scanner.flush());
    assert_eq!(terminal_bytes, input);
}

#[test]
fn partial_and_false_initial_markers_replay_exactly_once() {
    for marker in [ZRQINIT_PREFIX, ZRINIT_PREFIX] {
        for prefix_len in 1..=marker.len() {
            let mut input = marker[..prefix_len].to_vec();
            input.push(b'x');
            let mut scanner = ZmodemPrefixScanner::new();
            let mut started = None;
            let mut terminal_bytes = feed(&mut scanner, &input[..prefix_len], &mut started);
            scanner.note_local_input();
            terminal_bytes.extend(feed(&mut scanner, &input[prefix_len..], &mut started));
            terminal_bytes.extend(scanner.flush());
            assert_eq!(terminal_bytes, input, "false marker changed at prefix length {prefix_len} for {marker:?}");
            assert!(started.is_none());
        }
    }
}

#[test]
fn transport_close_flushes_unseen_tentative_remote_bytes() {
    let input = b"**\x18B0";
    let mut scanner = ZmodemPrefixScanner::new();
    let mut terminal_bytes = scanner.scan(input).terminal_bytes;
    scanner.cancel_automatic_rz_echo_expectation();
    terminal_bytes.extend(scanner.flush());
    assert_eq!(terminal_bytes, input);
}

#[test]
fn split_valid_initial_headers_require_complete_crc() {
    for direction in [ZmodemTransferDirection::Upload, ZmodemTransferDirection::Download] {
        let header = initial_header(direction);
        assert!(validate_initial_header(&header, direction));
        for split in 0..header.len() {
            let mut scanner = ZmodemPrefixScanner::new();
            let mut started = None;
            let mut terminal_bytes = feed(&mut scanner, &header[..split], &mut started);
            assert!(started.is_none(), "{direction:?} session started before the complete header at split {split}");
            terminal_bytes.extend(feed(&mut scanner, &header[split..], &mut started));
            assert!(started == Some(direction), "{direction:?} session was not detected at split {split}");
            let provisional_stars = split.min(2);
            let mut expected_terminal_bytes = vec![b'*'; provisional_stars];
            for _ in 0..provisional_stars {
                expected_terminal_bytes.extend_from_slice(TERMINAL_ERASE_CELL);
            }
            assert_eq!(terminal_bytes, expected_terminal_bytes);
        }
    }
}

#[test]
fn invalid_initial_header_replays_every_byte() {
    for direction in [ZmodemTransferDirection::Upload, ZmodemTransferDirection::Download] {
        let mut header = initial_header(direction);
        let crc_nibble = header.last_mut().expect("header crc nibble");
        *crc_nibble = if *crc_nibble == b'0' { b'1' } else { b'0' };
        assert!(!validate_initial_header(&header, direction));

        let mut scanner = ZmodemPrefixScanner::new();
        let mut started = None;
        let split = header.len() / 2;
        let mut terminal_bytes = feed(&mut scanner, &header[..split], &mut started);
        scanner.note_local_input();
        terminal_bytes.extend(feed(&mut scanner, &header[split..], &mut started));
        terminal_bytes.extend(scanner.flush());
        assert_eq!(terminal_bytes, header);
        assert!(started.is_none());
    }
}

#[test]
fn ordinary_star_before_later_valid_header_is_not_erased() {
    let header = initial_header(ZmodemTransferDirection::Upload);
    let mut scanner = ZmodemPrefixScanner::new();
    let mut started = None;
    let first = feed(&mut scanner, b"***", &mut started);
    let second = feed(&mut scanner, &header[2..], &mut started);
    let mut expected_second = Vec::new();
    expected_second.extend_from_slice(TERMINAL_ERASE_CELL);
    expected_second.extend_from_slice(TERMINAL_ERASE_CELL);
    assert_eq!(first, b"***");
    assert_eq!(second, expected_second);
    assert!(started.is_some());
}

#[test]
fn strips_lrzsz_autostart_invocation_before_download_prefix() {
    let mut scanner = ZmodemPrefixScanner::new();
    let mut remote_bytes = b"prompt\nrz\r".to_vec();
    remote_bytes.extend(initial_header(ZmodemTransferDirection::Download));
    let outcome = scanner.scan(remote_bytes.as_slice());
    assert_eq!(outcome.terminal_bytes, b"prompt\n".to_vec());
    let (direction, protocol) = outcome.started.expect("download state");
    assert_eq!(protocol, initial_header(ZmodemTransferDirection::Download));
    let state = initial_transfer_state(direction);
    assert_eq!(state.direction, ZmodemTransferDirection::Download);
    assert_eq!(state.phase, ZmodemTransferPhase::AwaitingDownloadDirectory);
}

#[test]
fn automatic_quiet_rz_echo_requires_explicit_ownership() {
    let mut remote_bytes = b"prompt\n rz -q\r".to_vec();
    remote_bytes.extend(initial_header(ZmodemTransferDirection::Upload));
    for split in 0..remote_bytes.len() {
        let mut scanner = ZmodemPrefixScanner::new();
        scanner.expect_automatic_rz_echo();
        let mut started = None;
        let mut terminal_bytes = feed(&mut scanner, &remote_bytes[..split], &mut started);
        terminal_bytes.extend(feed(&mut scanner, &remote_bytes[split..], &mut started));
        assert_eq!(terminal_bytes, b"prompt\n".to_vec(), "split {split}");
        let state = initial_transfer_state(started.expect("upload state"));
        assert_eq!(state.direction, ZmodemTransferDirection::Upload);
        assert_eq!(state.phase, ZmodemTransferPhase::AwaitingUploadSelection);
    }

    let mut scanner = ZmodemPrefixScanner::new();
    let mut manual_remote_bytes = b"prompt\n rz\r".to_vec();
    manual_remote_bytes.extend(initial_header(ZmodemTransferDirection::Upload));
    assert_eq!(scanner.scan(manual_remote_bytes.as_slice()).terminal_bytes, b"prompt\n rz\r".to_vec());
}

#[test]
fn echo_candidates_cover_partial_echoes_and_readiness_prefixes() {
    assert_eq!(automatic_rz_echo_candidate_suffix_len(b"prompt\n rz"), 3);
    assert_eq!(automatic_rz_echo_candidate_suffix_len(b"prompt\n rz -q\r**"), 9);
    assert_eq!(automatic_rz_echo_candidate_suffix_len(b"plain"), 0);
    assert_eq!(initial_transfer_state(ZmodemTransferDirection::Upload).title, "ZMODEM Upload");
}
