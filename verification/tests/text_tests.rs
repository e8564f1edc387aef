use kernel_agent::event::Event;
use kernel_agent::event::ParseError;
use kernel_agent::text::cstr_to_str;
use kernel_agent::text::cstr_to_string;
use kernel_agent::text::to_string;
use kernel_agent::text::validate_text;
use kernel_agent::utf8::is_valid_text;

#[test]
fn cstr_to_string_stops_at_nul() {
    let mut buf = b"sshd".to_vec();
    buf.push(0);
    buf.extend_from_slice(b"leftover");
    assert_eq!(cstr_to_string(&buf), "sshd");
    assert_eq!(to_string(&buf), "sshd");
}

#[test]
fn cstr_to_string_takes_whole_window_without_nul() {
    assert_eq!(cstr_to_string(b"abcdefghijklmnop"), "abcdefghijklmnop");
    assert_eq!(to_string(b""), "");
}

#[test]
fn invalid_bytes_are_substituted_not_fatal() {
    // 0xFF can start no UTF-8 sequence; both bytes are replaced.
    let buf = vec![0xFFu8, 0x80, 0];
    let s = cstr_to_string(&buf);
    assert_eq!(s, "\u{FFFD}\u{FFFD}");
}

#[test]
fn multibyte_text_passes_through() {
    let mut buf = "höst".as_bytes().to_vec();
    buf.push(0);
    buf.push(b'x');
    assert_eq!(cstr_to_string(&buf), "höst");
}

#[test]
fn cstr_to_str_matches_cstr_to_string() {
    let mut buf = b"bash".to_vec();
    buf.push(0);
    buf.extend_from_slice(b"tail");
    assert_eq!(cstr_to_str(&buf), "bash");
    assert_eq!(cstr_to_str(b"no_nul_here"), "no_nul_here");
}

#[test]
fn utf8_validity_agrees_with_the_standard_library() {
    let cases: Vec<Vec<u8>> = vec![
        b"".to_vec(),
        b"plain ascii".to_vec(),
        "höst".as_bytes().to_vec(),
        "\u{10FFFF}".as_bytes().to_vec(),
        vec![0xC0, 0x80],             // overlong two-byte encoding of NUL
        vec![0xE0, 0x80, 0x80],       // overlong three-byte encoding
        vec![0xF0, 0x80, 0x80, 0x80], // overlong four-byte encoding
        vec![0xED, 0xA0, 0x80],       // surrogate U+D800
        vec![0xED, 0x9F, 0xBF],       // U+D7FF, just below the surrogates
        vec![0xEE, 0x80, 0x80],       // U+E000, just above the surrogates
        vec![0xF4, 0x8F, 0xBF, 0xBF], // U+10FFFF, the largest scalar
        vec![0xF4, 0x90, 0x80, 0x80], // one past the largest scalar
        vec![0x80],                   // stray continuation byte
        vec![0xFF],                   // not a leading byte at all
        vec![0xE2, 0x82],             // truncated three-byte sequence
        vec![0xF0, 0x9F, 0x98, 0x80], // a four-byte scalar
        vec![0xC3, 0x28],             // bad continuation byte
    ];
    for bytes in cases {
        assert_eq!(
            is_valid_text(&bytes),
            std::str::from_utf8(&bytes).is_ok(),
            "bytes {:?}",
            bytes
        );
    }
}

#[test]
fn validate_text_reports_malformed_fields() {
    let good = Event::NetworkConnect {
        timestamp: 0,
        pid: 1,
        uid: 2,
        command: b"curl".to_vec(),
        src_addr: 0,
        dst_addr: 0,
        src_port: 0,
        dst_port: 0,
    };
    assert_eq!(validate_text(&good), Ok(()));

    let bad = Event::NetworkConnect {
        timestamp: 0,
        pid: 1,
        uid: 2,
        command: vec![0xC3, 0x28], // invalid continuation byte
        src_addr: 0,
        dst_addr: 0,
        src_port: 0,
        dst_port: 0,
    };
    assert_eq!(validate_text(&bad), Err(ParseError::MalformedText));
}
