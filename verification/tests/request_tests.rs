use backend_server::request::request_text;

#[test]
fn request_text_reads_what_the_read_gave() {
    let mut buffer = vec![0u8; 1024];
    let request = b"GET / HTTP/1.1\r\n\r\n";
    buffer[..request.len()].copy_from_slice(request);
    assert_eq!(request_text(&buffer, request.len()), "GET / HTTP/1.1\r\n\r\n");
    assert_eq!(request_text(&buffer, 3), "GET");
}

#[test]
fn request_text_of_an_empty_read_is_empty() {
    assert_eq!(request_text(&[0u8; 1024], 0), "");
    assert_eq!(request_text(&[], 0), "");
}

#[test]
fn request_text_takes_the_whole_buffer_at_most() {
    assert_eq!(request_text(b"abc", 3), "abc");
    assert_eq!(request_text(b"abc", 4), "abc");
    assert_eq!(request_text(b"abc", usize::MAX), "abc");
    let full = vec![b'x'; 1024];
    assert_eq!(request_text(&full, 1024), "x".repeat(1024));
}

#[test]
fn request_text_keeps_text_beyond_ascii() {
    let text = "héllo, 日本語 🦀";
    assert_eq!(request_text(text.as_bytes(), text.len()), text);
}

#[test]
fn request_text_replaces_what_is_no_text() {
    assert_eq!(request_text(&[0xff], 1), "\u{fffd}");
    assert_eq!(request_text(&[b'a', 0xff, 0xfe, b'b'], 4), "a\u{fffd}\u{fffd}b");
    assert_eq!(request_text(&[b'a', 0xe6, 0x97], 3), "a\u{fffd}");
    assert_eq!(request_text(&[0xc0, 0x80, b'z'], 3), "\u{fffd}\u{fffd}z");
}

#[test]
fn request_text_cuts_where_the_read_ended() {
    let text = "日本";
    assert_eq!(request_text(text.as_bytes(), 3), "日");
    assert_eq!(request_text(text.as_bytes(), 4), "日\u{fffd}");
    assert_eq!(request_text(text.as_bytes(), 6), "日本");
}

#[test]
fn request_text_keeps_zero_bytes() {
    assert_eq!(request_text(&[0, 0, 0], 2), "\0\0");
}
