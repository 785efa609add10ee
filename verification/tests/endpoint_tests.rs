use backend_server::endpoint::{
    configure, parse_port, ConfigError, Endpoint, DEFAULT_HOST, DEFAULT_PORT,
};

fn args(items: &[&str]) -> Vec<String> {
    items.iter().map(|item| item.to_string()).collect()
}

#[test]
fn defaults_are_loopback_and_1080() {
    assert_eq!(DEFAULT_HOST, "127.0.0.1");
    assert_eq!(DEFAULT_PORT, 1080);
    let endpoint = Endpoint::default();
    assert_eq!(endpoint.host(), "127.0.0.1");
    assert_eq!(endpoint.port(), 1080);
    assert_eq!(endpoint.address(), "127.0.0.1:1080");
}

#[test]
fn parse_port_reads_plain_numbers() {
    assert_eq!(parse_port("0"), Ok(0));
    assert_eq!(parse_port("7"), Ok(7));
    assert_eq!(parse_port("80"), Ok(80));
    assert_eq!(parse_port("1080"), Ok(1080));
    assert_eq!(parse_port("65535"), Ok(65535));
}

#[test]
fn parse_port_allows_one_plus_and_leading_zeros() {
    assert_eq!(parse_port("+1080"), Ok(1080));
    assert_eq!(parse_port("+0"), Ok(0));
    assert_eq!(parse_port("0001080"), Ok(1080));
    assert_eq!(parse_port("000000000000000000000000065535"), Ok(65535));
    assert_eq!(parse_port("+00"), Ok(0));
}

#[test]
fn parse_port_refuses_the_empty_text() {
    assert_eq!(parse_port(""), Err(ConfigError::EmptyPort));
}

#[test]
fn parse_port_refuses_what_is_no_digit() {
    assert_eq!(parse_port("abc"), Err(ConfigError::InvalidDigit));
    assert_eq!(parse_port("+"), Err(ConfigError::InvalidDigit));
    assert_eq!(parse_port("-1"), Err(ConfigError::InvalidDigit));
    assert_eq!(parse_port("++1"), Err(ConfigError::InvalidDigit));
    assert_eq!(parse_port("1+"), Err(ConfigError::InvalidDigit));
    assert_eq!(parse_port(" 1080"), Err(ConfigError::InvalidDigit));
    assert_eq!(parse_port("1080 "), Err(ConfigError::InvalidDigit));
    assert_eq!(parse_port("1080\n"), Err(ConfigError::InvalidDigit));
    assert_eq!(parse_port("10_80"), Err(ConfigError::InvalidDigit));
    assert_eq!(parse_port("0x50"), Err(ConfigError::InvalidDigit));
    assert_eq!(parse_port("1.0"), Err(ConfigError::InvalidDigit));
    assert_eq!(parse_port("/"), Err(ConfigError::InvalidDigit));
    assert_eq!(parse_port(":"), Err(ConfigError::InvalidDigit));
    assert_eq!(parse_port("١٠٨٠"), Err(ConfigError::InvalidDigit));
    assert_eq!(parse_port("+é"), Err(ConfigError::InvalidDigit));
    assert_eq!(parse_port("999999x"), Err(ConfigError::InvalidDigit));
}

#[test]
fn parse_port_refuses_numbers_beyond_16_bits() {
    assert_eq!(parse_port("65536"), Err(ConfigError::PortOutOfRange));
    assert_eq!(parse_port("999999"), Err(ConfigError::PortOutOfRange));
    assert_eq!(parse_port("+70000"), Err(ConfigError::PortOutOfRange));
    assert_eq!(parse_port("4294967296"), Err(ConfigError::PortOutOfRange));
    assert_eq!(
        parse_port("99999999999999999999999999999999999999"),
        Err(ConfigError::PortOutOfRange)
    );
    assert_eq!(parse_port("0065536"), Err(ConfigError::PortOutOfRange));
}

#[test]
fn parse_port_accepts_what_the_standard_parser_accepts() {
    let mut texts: Vec<String> = Vec::new();
    for n in 0u32..=70000 {
        if n < 300 || n % 97 == 0 || n > 65500 {
            texts.push(n.to_string());
            texts.push(format!("+{}", n));
            texts.push(format!("0{}", n));
            texts.push(format!("-{}", n));
            texts.push(format!("{} ", n));
            texts.push(format!("{}a", n));
        }
    }
    for text in ["", "+", "-", "a", "+-1", "1e3", "๑", "\u{0}", "12\u{0}"] {
        texts.push(text.to_string());
    }
    for text in &texts {
        let expected: Option<u16> = text.parse::<u16>().ok();
        assert_eq!(parse_port(text).ok(), expected, "port text {:?}", text);
    }
}

#[test]
fn every_port_is_read_back_from_its_address() {
    for port in [0u16, 1, 9, 10, 99, 100, 999, 1000, 1080, 9999, 10000, 65534, 65535] {
        let endpoint = Endpoint::new("localhost".to_string(), port);
        let address = endpoint.address();
        let (host, text) = address.rsplit_once(':').unwrap();
        assert_eq!(host, "localhost");
        assert_eq!(text, port.to_string());
        assert_eq!(parse_port(text), Ok(port));
    }
}

#[test]
fn address_is_host_colon_port() {
    assert_eq!(Endpoint::new("0.0.0.0".to_string(), 8080).address(), "0.0.0.0:8080");
    assert_eq!(Endpoint::new("example.org".to_string(), 0).address(), "example.org:0");
    assert_eq!(Endpoint::new("::1".to_string(), 65535).address(), "::1:65535");
    assert_eq!(Endpoint::new(String::new(), 5).address(), ":5");
    assert_eq!(Endpoint::new("höst".to_string(), 10).address(), "höst:10");
}

#[test]
fn configure_without_arguments_gives_the_defaults() {
    let endpoint = configure(&args(&["server"])).unwrap();
    assert_eq!(endpoint, Endpoint::default());
    let endpoint = configure(&args(&[])).unwrap();
    assert_eq!(endpoint, Endpoint::default());
}

#[test]
fn configure_takes_the_host_alone() {
    let endpoint = configure(&args(&["server", "0.0.0.0"])).unwrap();
    assert_eq!(endpoint.host(), "0.0.0.0");
    assert_eq!(endpoint.port(), 1080);
    assert_eq!(endpoint.address(), "0.0.0.0:1080");
}

#[test]
fn configure_takes_host_and_port() {
    let endpoint = configure(&args(&["server", "localhost", "8080"])).unwrap();
    assert_eq!(endpoint, Endpoint::new("localhost".to_string(), 8080));
    assert_eq!(endpoint.address(), "localhost:8080");
}

#[test]
fn configure_ignores_what_follows_the_port() {
    let endpoint = configure(&args(&["server", "localhost", "8080", "abc", "999999"])).unwrap();
    assert_eq!(endpoint, Endpoint::new("localhost".to_string(), 8080));
}

#[test]
fn configure_does_not_look_into_the_host() {
    let endpoint = configure(&args(&["server", "not a host", "1"])).unwrap();
    assert_eq!(endpoint.host(), "not a host");
    let endpoint = configure(&args(&["server", ""])).unwrap();
    assert_eq!(endpoint.host(), "");
    assert_eq!(endpoint.port(), 1080);
}

#[test]
fn configure_fails_on_a_port_that_is_no_number() {
    assert_eq!(
        configure(&args(&["server", "127.0.0.1", "abc"])),
        Err(ConfigError::InvalidDigit)
    );
}

#[test]
fn configure_fails_on_a_port_beyond_16_bits() {
    assert_eq!(
        configure(&args(&["server", "127.0.0.1", "999999"])),
        Err(ConfigError::PortOutOfRange)
    );
}

#[test]
fn configure_fails_on_an_empty_port() {
    assert_eq!(configure(&args(&["server", "127.0.0.1", ""])), Err(ConfigError::EmptyPort));
}

#[test]
fn from_line_reads_the_port_of_a_line() {
    assert_eq!(Endpoint::from_line("1080\n"), Ok(Endpoint::default()));
    assert_eq!(Endpoint::from_line("8080\r\n"), Ok(Endpoint::new("127.0.0.1".to_string(), 8080)));
    assert_eq!(Endpoint::from_line("8080"), Ok(Endpoint::new("127.0.0.1".to_string(), 8080)));
    assert_eq!(Endpoint::from_line("+65535\n"), Ok(Endpoint::new("127.0.0.1".to_string(), 65535)));
}

#[test]
fn from_line_takes_off_one_terminator_only() {
    assert_eq!(Endpoint::from_line("1080\n\n"), Err(ConfigError::InvalidDigit));
    assert_eq!(Endpoint::from_line("1080\r"), Err(ConfigError::InvalidDigit));
    assert_eq!(Endpoint::from_line("1080\r\r\n"), Err(ConfigError::InvalidDigit));
    assert_eq!(Endpoint::from_line("1080 \n"), Err(ConfigError::InvalidDigit));
    assert_eq!(Endpoint::from_line(" 1080\n"), Err(ConfigError::InvalidDigit));
}

#[test]
fn from_line_fails_as_parse_port_does() {
    assert_eq!(Endpoint::from_line(""), Err(ConfigError::EmptyPort));
    assert_eq!(Endpoint::from_line("\n"), Err(ConfigError::EmptyPort));
    assert_eq!(Endpoint::from_line("\r\n"), Err(ConfigError::EmptyPort));
    assert_eq!(Endpoint::from_line("abc\n"), Err(ConfigError::InvalidDigit));
    assert_eq!(Endpoint::from_line("999999\n"), Err(ConfigError::PortOutOfRange));
    assert_eq!(Endpoint::from_line("é\n"), Err(ConfigError::InvalidDigit));
}

#[test]
fn a_clone_is_the_same_endpoint() {
    let endpoint = Endpoint::new("localhost".to_string(), 4000);
    let copy = endpoint.clone();
    assert_eq!(copy, endpoint);
    assert_eq!(copy.address(), "localhost:4000");
}
