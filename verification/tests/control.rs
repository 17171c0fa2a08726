use discord_mute::daemon::{
    already_running, handle_connection, read_log_tail, read_response, write_request,
    write_response, ControlError, DaemonMode, Startup, StartupTask, READY_PAUSE, READY_TIMEOUT,
};
use discord_mute::text::{
    chars_of, contains_ignoring_case, decimal, find, hex, join_all, lines, same_text, signed_decimal,
    starts_with, trim,
};
use discord_mute::wire::{as_unsigned, begins_with, read_signed_le32};

#[test]
fn mode_names() {
    assert_eq!(DaemonMode::Mute.label(), "mute");
    assert_eq!(DaemonMode::PushToTalk.label(), "ptt");
    assert_eq!(DaemonMode::Mute.serve_command(), "serve");
    assert_eq!(DaemonMode::PushToTalk.serve_command(), "serve-ptt");
}

#[test]
fn status_request_is_answered() {
    let request = write_request("GET", "/status", "a:1");
    assert_eq!(
        request,
        "GET /status HTTP/1.1\r\nHost: a:1\r\nConnection: close\r\nContent-Length: 0\r\n\r\n"
    );
    let response = handle_connection(request.as_bytes(), DaemonMode::PushToTalk, 12, 345, "a:1");
    assert!(!response.quit);
    let body = "{\"ok\":true,\"mode\":\"ptt\",\"pid\":12,\"uptimeSeconds\":345,\"api\":\"a:1\"}";
    assert_eq!(
        response.text,
        format!(
            "HTTP/1.1 200 OK\r\nContent-Type: application/json; charset=utf-8\r\n\
             Content-Length: 66\r\nConnection: close\r\n\r\n{body}\n"
        )
    );
    assert_eq!(read_response(&response.text).unwrap(), body);
}

#[test]
fn quit_request_is_obeyed() {
    let request = write_request("POST", "/quit", "a:1");
    let response = handle_connection(request.as_bytes(), DaemonMode::Mute, 1, 0, "a:1");
    assert!(response.quit);
    assert_eq!(
        read_response(&response.text).unwrap(),
        "{\"ok\":true,\"message\":\"quitting\"}"
    );
}

#[test]
fn anything_else_is_not_found() {
    for request in ["GET /statusx HTTP/1.1", "get /status ", "POST /status ", "", "GET /quit "] {
        let response = handle_connection(request.as_bytes(), DaemonMode::Mute, 1, 0, "a:1");
        assert!(!response.quit);
        assert!(response.text.starts_with("HTTP/1.1 404 Not Found\r\n"));
        let error = read_response(&response.text).unwrap_err();
        assert_eq!(
            error.message(),
            "control API returned an error:\n{\"ok\":false,\"error\":\"not found\"}\n"
        );
    }
    let response = handle_connection(&[0xff, 0xfe], DaemonMode::Mute, 1, 0, "a:1");
    assert!(response.text.starts_with("HTTP/1.1 404 "));
}

#[test]
fn responses_are_read_back() {
    assert_eq!(read_response(&write_response(200, "OK", " x\r\n\r\ny \n")).unwrap(), "x\r\n\r\ny");
    assert!(matches!(
        read_response(&write_response(2000, "OK", "x")),
        Err(ControlError::Refused(body)) if body == "x"
    ));
    let error = read_response("HTTP/1.1 200 OK\r\n").unwrap_err();
    assert_eq!(error.message(), "invalid control API response: HTTP/1.1 200 OK\r\n");
    assert!(matches!(
        read_response("HTTP/1.0 200 OK\r\n\r\nbody"),
        Err(ControlError::Refused(body)) if body == "body"
    ));
}

#[test]
fn content_length_counts_bytes() {
    assert!(write_response(200, "OK", "é€").contains("Content-Length: 5\r\n"));
}

#[test]
fn daemon_is_given_five_seconds() {
    let mut startup = Startup::new(1000);
    assert_eq!(startup.deadline, 1000 + READY_TIMEOUT);
    assert_eq!(startup.next(1000), StartupTask::Ask);
    assert_eq!(
        startup.failure("/l", "tail"),
        "daemon did not become ready within 5 seconds (no status response).\nLog: /l\n\ntail"
    );
    assert_eq!(startup.not_ready("refused".to_string()), READY_PAUSE);
    assert_eq!(startup.next(999 + READY_TIMEOUT), StartupTask::Ask);
    assert_eq!(startup.next(1000 + READY_TIMEOUT), StartupTask::GiveUp);
    assert_eq!(
        startup.failure("/l", "tail"),
        "daemon did not become ready within 5 seconds (refused).\nLog: /l\n\ntail"
    );
}

#[test]
fn log_tail_is_forty_lines() {
    let log: String = (1..=50).map(|n| format!("line {n}\r\n")).collect();
    let tail = read_log_tail(&log);
    assert!(tail.starts_with("line 11\nline 12\n"));
    assert!(tail.ends_with("\nline 50"));
    assert_eq!(tail.lines().count(), 40);
    assert_eq!(read_log_tail("a\n\nb"), "a\n\nb");
    assert_eq!(read_log_tail(" \n\t\n"), "(daemon log is empty)");
    assert_eq!(read_log_tail(""), "(daemon log is empty)");
}

#[test]
fn running_daemon_is_reported() {
    assert_eq!(
        already_running("{}"),
        "discord-mute-rs already appears to be running:\n{}"
    );
}

#[test]
fn numbers_in_decimal() {
    for n in [0u64, 9, 10, 99, 100, 12345, u64::MAX] {
        assert_eq!(decimal(n), n.to_string());
    }
    for n in [0i64, -1, 42, i64::MIN, i64::MAX] {
        assert_eq!(signed_decimal(n), n.to_string());
    }
}

#[test]
fn bytes_in_hexadecimal() {
    for byte in 0..=255u8 {
        assert_eq!(hex(byte), format!("{byte:02x}"));
    }
}

#[test]
fn trimming_like_the_standard_library() {
    for text in ["", " ", " a b ", "\u{85}x\u{2029}", "\u{200b}x", "\u{1680}\u{205f}"] {
        assert_eq!(trim(text), text.trim());
    }
    for code in 0..0x3100u32 {
        if let Some(c) = char::from_u32(code) {
            let text = format!("{c}x{c}");
            assert_eq!(trim(&text), text.trim());
        }
    }
}

#[test]
fn lines_like_the_standard_library() {
    for text in ["", "\n", "a", "a\n", "a\r\nb", "a\rb\n\r\n\nc\r", "\r"] {
        let wanted: Vec<String> = text.lines().map(|line| line.to_string()).collect();
        assert_eq!(lines(text), wanted);
    }
    let parts = vec!["a".to_string(), "".to_string(), "b".to_string()];
    assert_eq!(join_all(&parts, 0, ", "), "a, , b");
    assert_eq!(join_all(&parts, 2, "\n"), "b");
    assert_eq!(join_all(&parts, 3, "\n"), "");
}

#[test]
fn searching() {
    assert_eq!(find(&chars_of("abcabc"), &chars_of("ca")), Some(2));
    assert_eq!(find(&chars_of("abc"), &chars_of("")), Some(0));
    assert_eq!(find(&chars_of("abc"), &chars_of("abcd")), None);
    assert!(starts_with(&chars_of("abc"), &chars_of("ab")));
    assert!(!starts_with(&chars_of("abc"), &chars_of("b")));
    assert!(contains_ignoring_case("xDuAl", "dual"));
    assert!(!contains_ignoring_case("du al", "dual"));
    assert!(same_text("é", "é"));
    assert!(!same_text("a", "b"));
    assert!(begins_with(b"GET /", b"GET "));
    assert!(!begins_with(b"GE", b"GET"));
}

#[test]
fn little_endian_integers() {
    assert_eq!(read_signed_le32(&[0xfe, 0xff, 0xff, 0xff]), -2);
    assert_eq!(read_signed_le32(&[1, 2, 3, 4]), 0x0403_0201);
    for n in [0, 1, -1, i32::MIN, i32::MAX, -123456] {
        assert_eq!(as_unsigned(n), n as u32);
        assert_eq!(read_signed_le32(&n.to_le_bytes()), n);
    }
}
