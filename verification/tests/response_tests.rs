use backend_server::response::{
    fixed_response, wrap_body, BODY, HEAD_END, LENGTH_HEADER, STATUS_LINE,
};

/// Reads a response as a client would: the number in the length header and
/// what follows the blank line.
fn read_response(response: &str) -> (usize, &str) {
    let rest = response.strip_prefix("HTTP/1.1 200 OK\r\n").expect("status line");
    let (head, body) = rest.split_once("\r\n\r\n").expect("blank line");
    let value = head.strip_prefix("Content-Length: ").expect("length header");
    (value.parse().expect("a number"), body)
}

#[test]
fn the_parts_of_a_response_are_these() {
    assert_eq!(STATUS_LINE, "HTTP/1.1 200 OK\r\n");
    assert_eq!(LENGTH_HEADER, "Content-Length: ");
    assert_eq!(HEAD_END, "\r\n\r\n");
    assert_eq!(BODY, "Hello from Rust server!");
}

#[test]
fn fixed_response_is_this_text() {
    assert_eq!(
        fixed_response(),
        "HTTP/1.1 200 OK\r\nContent-Length: 23\r\n\r\nHello from Rust server!"
    );
}

#[test]
fn fixed_response_is_the_wrapped_body() {
    assert_eq!(fixed_response(), wrap_body(BODY));
    assert_eq!(fixed_response(), fixed_response());
}

#[test]
fn fixed_response_declares_the_length_of_its_body() {
    let response = fixed_response();
    let (declared, body) = read_response(&response);
    assert_eq!(body, BODY);
    assert_eq!(declared, BODY.len());
    assert_eq!(declared, body.as_bytes().len());
    assert_eq!(declared, 23);
}

#[test]
fn fixed_response_starts_with_the_status_line_and_ends_with_the_body() {
    let response = fixed_response();
    assert!(response.starts_with("HTTP/1.1 200 OK\r\n"));
    assert!(response.ends_with("Hello from Rust server!"));
    assert!(response.ends_with("\r\n\r\nHello from Rust server!"));
}

#[test]
fn fixed_response_has_one_header_only() {
    let response = fixed_response();
    let (head, _) = response.split_once("\r\n\r\n").unwrap();
    let lines: Vec<&str> = head.split("\r\n").collect();
    assert_eq!(lines, vec!["HTTP/1.1 200 OK", "Content-Length: 23"]);
}

#[test]
fn wrap_body_of_nothing_declares_zero() {
    assert_eq!(wrap_body(""), "HTTP/1.1 200 OK\r\nContent-Length: 0\r\n\r\n");
}

#[test]
fn wrap_body_counts_bytes_and_not_characters() {
    assert_eq!(wrap_body("é"), "HTTP/1.1 200 OK\r\nContent-Length: 2\r\n\r\né");
    assert_eq!(wrap_body("日本語"), "HTTP/1.1 200 OK\r\nContent-Length: 9\r\n\r\n日本語");
    assert_eq!(wrap_body("🦀"), "HTTP/1.1 200 OK\r\nContent-Length: 4\r\n\r\n🦀");
}

#[test]
fn wrap_body_declares_the_length_of_every_body() {
    let mut body = String::new();
    for _ in 0..1200 {
        let response = wrap_body(&body);
        let (declared, read) = read_response(&response);
        assert_eq!(read, body);
        assert_eq!(declared, body.len());
        assert!(response.starts_with(STATUS_LINE));
        assert!(response.ends_with(body.as_str()));
        body.push(if body.len() % 3 == 0 { 'x' } else { 'ß' });
    }
}

#[test]
fn wrap_body_keeps_a_body_that_holds_line_ends() {
    let body = "a\r\n\r\nb\r\n";
    let response = wrap_body(body);
    assert_eq!(response, "HTTP/1.1 200 OK\r\nContent-Length: 8\r\n\r\na\r\n\r\nb\r\n");
    let (declared, read) = read_response(&response);
    assert_eq!(declared, 8);
    assert_eq!(read, body);
}

#[test]
fn wrap_body_writes_lengths_of_several_digits() {
    let ten = "0123456789";
    assert!(wrap_body(ten).starts_with("HTTP/1.1 200 OK\r\nContent-Length: 10\r\n\r\n"));
    let hundred = ten.repeat(10);
    assert!(wrap_body(&hundred).starts_with("HTTP/1.1 200 OK\r\nContent-Length: 100\r\n\r\n"));
    let many = ten.repeat(12345);
    assert!(wrap_body(&many).starts_with("HTTP/1.1 200 OK\r\nContent-Length: 123450\r\n\r\n"));
}
