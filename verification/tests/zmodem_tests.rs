use mica_term::zmodem_model::{
    automatic_rz_echo_start, buffer_protocol_wire, find_zmodem_prefix, flush_pending_wire, safe_file_name_of,
    sanitize_zmodem_file_name, strip_automatic_rz_echo, strip_lrzsz_download_autostart_invocation, PostSessionTail,
    PostSessionTailOutcome, WireSubmitError, ZmodemTransferDirection,
};

#[test]
fn finds_both_known_zmodem_prefixes() {
    assert_eq!(find_zmodem_prefix(b"hello**\x18B01rest"), Some((5, ZmodemTransferDirection::Upload)));
    assert_eq!(find_zmodem_prefix(b"hello**\x18B00rest"), Some((5, ZmodemTransferDirection::Download)));
}

#[test]
fn earliest_zmodem_prefix_wins_and_plain_text_has_none() {
    assert_eq!(find_zmodem_prefix(b"**\x18B00 then **\x18B01"), Some((0, ZmodemTransferDirection::Download)));
    assert_eq!(find_zmodem_prefix(b"plain**\x18B0"), None);
    assert_eq!(find_zmodem_prefix(b""), None);
}

#[test]
fn sanitizes_remote_names_to_safe_basename() {
    assert_eq!(sanitize_zmodem_file_name(b"../etc/passwd"), "passwd");
    assert_eq!(sanitize_zmodem_file_name(b"nested/file.txt"), "file.txt");
    assert_eq!(sanitize_zmodem_file_name(b""), "download");
}

#[test]
fn sanitizes_backslashes_dots_and_invalid_utf8() {
    assert_eq!(safe_file_name_of("dir\\name.bin"), "name.bin");
    assert_eq!(safe_file_name_of("a/.."), "download");
    assert_eq!(safe_file_name_of("  spaced.txt  "), "spaced.txt");
    assert_eq!(sanitize_zmodem_file_name(b"bad\xffname"), "bad\u{fffd}name");
}

#[test]
fn buffered_protocol_wire_retains_unconsumed_tail() {
    let mut pending_wire = Vec::new();
    let mut first_call = true;
    buffer_protocol_wire(&mut pending_wire, b"abcdef", |chunk: &[u8]| {
        if first_call {
            first_call = false;
            assert_eq!(chunk, b"abcdef");
            Ok(3)
        } else {
            Ok(0)
        }
    })
    .expect("buffer protocol wire");
    assert_eq!(pending_wire, b"def".to_vec());

    flush_pending_wire(&mut pending_wire, |chunk: &[u8]| Ok(chunk.len())).expect("flush pending wire");
    assert!(pending_wire.is_empty());
}

#[test]
fn flush_pending_wire_keeps_everything_on_error() {
    let mut pending_wire = b"xyz".to_vec();
    let result = flush_pending_wire(&mut pending_wire, |_chunk: &[u8]| {
        Err(WireSubmitError { message: "refused".to_string() })
    });
    assert_eq!(result, Err(WireSubmitError { message: "refused".to_string() }));
    assert_eq!(pending_wire, b"xyz".to_vec());
}

#[test]
fn post_session_tail_consumes_only_direction_expected_bytes() {
    let mut upload = PostSessionTail::new(ZmodemTransferDirection::Upload);
    match upload.consume(b"\r\nroot@host:~# ") {
        PostSessionTailOutcome::Released(bytes) => assert_eq!(bytes, b"root@host:~# ".to_vec()),
        PostSessionTailOutcome::Pending => panic!("upload tail remained pending"),
    }

    let mut upload = PostSessionTail::new(ZmodemTransferDirection::Upload);
    match upload.consume(b"OO-service# ") {
        PostSessionTailOutcome::Released(bytes) => assert_eq!(bytes, b"OO-service# ".to_vec()),
        PostSessionTailOutcome::Pending => panic!("mismatched upload tail remained pending"),
    }

    let mut download = PostSessionTail::new(ZmodemTransferDirection::Download);
    assert!(matches!(download.consume(b"\r\nO"), PostSessionTailOutcome::Pending));
    match download.consume(b"Oroot@host:~# ") {
        PostSessionTailOutcome::Released(bytes) => assert_eq!(bytes, b"root@host:~# ".to_vec()),
        PostSessionTailOutcome::Pending => panic!("download tail remained pending"),
    }

    let mut download = PostSessionTail::new(ZmodemTransferDirection::Download);
    match download.consume(b"\r\nOx-service# ") {
        PostSessionTailOutcome::Released(bytes) => assert_eq!(bytes, b"Ox-service# ".to_vec()),
        PostSessionTailOutcome::Pending => panic!("mismatched download tail remained pending"),
    }
}

#[test]
fn strips_lrzsz_autostart_line() {
    assert_eq!(strip_lrzsz_download_autostart_invocation(b"prompt\nrz\r"), b"prompt\n");
    assert_eq!(strip_lrzsz_download_autostart_invocation(b"prompt\nrz\r\n"), b"prompt\n");
    assert_eq!(strip_lrzsz_download_autostart_invocation(b"prompt\n"), b"prompt\n");
}

#[test]
fn strips_automatic_rz_echo() {
    assert_eq!(automatic_rz_echo_start(b"prompt\n rz -q\r"), Some(7));
    assert_eq!(strip_automatic_rz_echo(b"prompt\n rz -q\r"), b"prompt\n");
    assert_eq!(strip_automatic_rz_echo(b"plain"), b"plain");
}
