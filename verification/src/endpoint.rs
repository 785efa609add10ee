//! Where the server listens: a host and a port, and how both are read from
//! the process's arguments or from a line of input.

use crate::decimal::{
    all_digits, decimal_text, decimal_value, lemma_decimal_round_trip,
    lemma_decimal_text_is_digits, lemma_decimal_value_push, push_decimal,
};
use vstd::prelude::*;
use vstd::string::*;

verus! {

/// The host that is used when none is given.
pub const DEFAULT_HOST: &'static str = "127.0.0.1";

/// The port that is used when none is given.
pub const DEFAULT_PORT: u16 = 1080;

/// Why a port text was refused.
#[derive(Clone, Copy, Debug, PartialEq, Eq, Structural)]
pub enum ConfigError {
    /// The port text is empty.
    EmptyPort,
    /// The port text holds no digit, or a character that is none (a lone
    /// `+`, a sign in the middle, a space, a letter).
    InvalidDigit,
    /// The port text is a number above 65535.
    PortOutOfRange,
}

/// The digits of a port text: the text itself, without the one `+` that may
/// stand in front.
pub open spec fn port_digits(text: Seq<char>) -> Seq<char> {
    if text.len() > 0 && text[0] == '+' {
        text.subrange(1, text.len() as int)
    } else {
        text
    }
}

/// The port that a text writes, or why it writes none. A port text is an
/// optional `+` and then one or more digits whose value fits 16 bits;
/// leading zeros are allowed.
pub open spec fn parsed_port(text: Seq<char>) -> Result<u16, ConfigError> {
    let digits = port_digits(text);
    if text.len() == 0 {
        Err(ConfigError::EmptyPort)
    } else if digits.len() == 0 || !all_digits(digits) {
        Err(ConfigError::InvalidDigit)
    } else if decimal_value(digits) > 65535 {
        Err(ConfigError::PortOutOfRange)
    } else {
        Ok(decimal_value(digits) as u16)
    }
}

/// Does `text` write a port?
pub open spec fn is_port_text(text: Seq<char>) -> bool {
    parsed_port(text) is Ok
}

/// The text of a port writes that port: what `decimal_text` gives for a
/// number of 16 bits is read back as that number.
pub proof fn lemma_port_round_trip(port: u16)
    ensures
        parsed_port(decimal_text(port as nat)) == Ok::<u16, ConfigError>(port),
{
    lemma_decimal_text_is_digits(port as nat);
    lemma_decimal_round_trip(port as nat);
}

/// The arguments give an endpoint unless they hold a third argument that
/// writes no port; the host is never looked into.
pub proof fn lemma_configured_unless_port_refused(args: Seq<String>)
    ensures
        configured(args) is Ok <==> args.len() <= 2 || is_port_text(args[2]@),
        configured(args) matches Err(error) ==> parsed_port(args[2]@) == Err::<u16, ConfigError>(
            error,
        ),
{
}

/// A text with a character beyond ASCII holds a character that is no digit.
proof fn lemma_non_ascii_is_no_port(text: Seq<char>)
    requires
        !vstd::utf8::is_ascii_chars(text),
    ensures
        text.len() > 0,
        !all_digits(port_digits(text)),
{
    let i = choose|i: int| 0 <= i < text.len() && !('\0' <= #[trigger] text[i] <= '\u{7f}');
    let digits = port_digits(text);
    if text[0] == '+' {
        assert(digits[i - 1] == text[i]);
    }
}

/// Reads a port from its text.
pub fn parse_port(text: &str) -> (r: Result<u16, ConfigError>)
    ensures
        r == parsed_port(text@),
{
    if text.is_empty() {
        return Err(ConfigError::EmptyPort);
    }
    if !text.is_ascii() {
        proof {
            lemma_non_ascii_is_no_port(text@);
        }
        return Err(ConfigError::InvalidDigit);
    }
    let bytes = text.as_bytes();
    proof {
        is_ascii_spec_bytes(text);
    }
    let start: usize = if bytes[0] == 43 {
        1
    } else {
        0
    };
    let ghost digits = port_digits(text@);
    if start == bytes.len() {
        return Err(ConfigError::InvalidDigit);
    }
    let mut value: u32 = 0;
    let mut beyond = false;
    let mut i: usize = start;
    while i < bytes.len()
        invariant
            vstd::utf8::is_ascii_chars(text@),
            bytes@ == Seq::new(text@.len(), |k: int| text@[k] as u8),
            digits == port_digits(text@),
            start <= 1,
            digits.len() == bytes.len() - start,
            forall|k: int| 0 <= k < digits.len() ==> digits[k] == text@[k + start],
            start <= i <= bytes.len(),
            all_digits(digits.subrange(0, i - start)),
            beyond ==> decimal_value(digits.subrange(0, i - start)) > 65535,
            !beyond ==> value == decimal_value(digits.subrange(0, i - start)),
            value <= 65535,
        decreases bytes.len() - i,
    {
        let b: u8 = bytes[i];
        let ghost c = text@[i as int];
        let ghost before = digits.subrange(0, i - start);
        let ghost after = digits.subrange(0, i - start + 1);
        assert(c == digits[i - start]);
        assert(after =~= before.push(c));
        if b < 48 || b > 57 {
            return Err(ConfigError::InvalidDigit);
        }
        proof {
            lemma_decimal_value_push(before, c);
        }
        if !beyond {
            value = value * 10 + (b - 48) as u32;
            if value > 65535 {
                beyond = true;
                value = 0;
            }
        }
        i += 1;
    }
    assert(digits.subrange(0, i - start) =~= digits);
    if beyond {
        Err(ConfigError::PortOutOfRange)
    } else {
        Ok(value as u16)
    }
}

/// A host and a port, as a mathematical pair.
pub struct EndpointView {
    pub host: Seq<char>,
    pub port: u16,
}

/// The address on which the server listens. It is made once, at startup, and
/// not changed afterwards.
#[derive(Debug, PartialEq, Eq)]
pub struct Endpoint {
    host: String,
    port: u16,
}

impl View for Endpoint {
    type V = EndpointView;

    closed spec fn view(&self) -> EndpointView {
        EndpointView { host: self.host@, port: self.port }
    }
}

/// The text that names an endpoint to the operating system: the host, a
/// colon, and the port in decimal.
pub open spec fn address_text(endpoint: EndpointView) -> Seq<char> {
    endpoint.host + seq![':'] + decimal_text(endpoint.port as nat)
}

/// The endpoint that the arguments of the process ask for. The first
/// argument is the program's name; the second, if there is one, is the host;
/// the third, if there is one, is the port text. What follows is ignored.
pub open spec fn configured(args: Seq<String>) -> Result<EndpointView, ConfigError> {
    let host = if args.len() > 1 {
        args[1]@
    } else {
        DEFAULT_HOST@
    };
    if args.len() > 2 {
        match parsed_port(args[2]@) {
            Ok(port) => Ok(EndpointView { host, port }),
            Err(error) => Err(error),
        }
    } else {
        Ok(EndpointView { host, port: DEFAULT_PORT })
    }
}

/// A line of input without its terminator: a final line feed is taken off,
/// and a carriage return before it.
pub open spec fn line_content(line: Seq<char>) -> Seq<char> {
    if line.len() > 0 && line.last() == '\n' {
        let rest = line.drop_last();
        if rest.len() > 0 && rest.last() == '\r' {
            rest.drop_last()
        } else {
            rest
        }
    } else {
        line
    }
}

impl Endpoint {
    /// The endpoint of a host and a port.
    pub fn new(host: String, port: u16) -> (r: Endpoint)
        ensures
            r@ == (EndpointView { host: host@, port }),
    {
        Endpoint { host, port }
    }

    /// The host.
    pub fn host(&self) -> (r: &str)
        ensures
            r@ == self@.host,
    {
        self.host.as_str()
    }

    /// The port.
    pub fn port(&self) -> (r: u16)
        ensures
            r == self@.port,
    {
        self.port
    }

    /// The text to bind to: host, colon, port.
    pub fn address(&self) -> (r: String)
        ensures
            r@ == address_text(self@),
    {
        let mut out = self.host.clone();
        proof {
            reveal_strlit(":");
        }
        out.append(":");
        push_decimal(&mut out, self.port as usize);
        out
    }

    /// The endpoint of the default host and the port that one line of input
    /// writes. The line's terminator is no part of the port text.
    pub fn from_line(line: &str) -> (r: Result<Endpoint, ConfigError>)
        ensures
            match r {
                Ok(endpoint) => parsed_port(line_content(line@)) == Ok::<u16, ConfigError>(
                    endpoint@.port,
                ) && endpoint@.host == DEFAULT_HOST@,
                Err(error) => parsed_port(line_content(line@)) == Err::<u16, ConfigError>(error),
            },
    {
        let len = line.unicode_len();
        let mut end: usize = len;
        if end > 0 && line.get_char(end - 1) == '\n' {
            end = end - 1;
            if end > 0 && line.get_char(end - 1) == '\r' {
                end = end - 1;
            }
        }
        let text = line.substring_char(0, end);
        assert(text@ =~= line_content(line@));
        match parse_port(text) {
            Ok(port) => Ok(Endpoint { host: DEFAULT_HOST.to_owned(), port }),
            Err(error) => Err(error),
        }
    }
}

impl Clone for Endpoint {
    /// An endpoint of the same host and port.
    fn clone(&self) -> (r: Endpoint)
        ensures
            r@ == self@,
    {
        Endpoint { host: self.host.clone(), port: self.port }
    }
}

impl Default for Endpoint {
    /// The default host and the default port.
    fn default() -> (r: Endpoint)
        ensures
            r@ == (EndpointView { host: DEFAULT_HOST@, port: DEFAULT_PORT }),
    {
        Endpoint { host: DEFAULT_HOST.to_owned(), port: DEFAULT_PORT }
    }
}

/// Reads the endpoint from the arguments of the process, the program's name
/// first. A missing host or port is the default one; a port text that writes
/// no port is an error, whatever the host.
pub fn configure(args: &[String]) -> (r: Result<Endpoint, ConfigError>)
    ensures
        match r {
            Ok(endpoint) => configured(args@) == Ok::<EndpointView, ConfigError>(endpoint@),
            Err(error) => configured(args@) == Err::<EndpointView, ConfigError>(error),
        },
{
    let host = if args.len() > 1 {
        args[1].clone()
    } else {
        DEFAULT_HOST.to_owned()
    };
    if args.len() > 2 {
        match parse_port(args[2].as_str()) {
            Ok(port) => Ok(Endpoint { host, port }),
            Err(error) => Err(error),
        }
    } else {
        Ok(Endpoint { host, port: DEFAULT_PORT })
    }
}

} // verus!
