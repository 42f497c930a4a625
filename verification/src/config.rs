//! The settings of the server, with their defaults.

use vstd::prelude::*;
use vstd::string::StringExecFns;
use crate::text::{all_ascii_digits, chars_of, is_ascii_digit};

verus! {

/// The settings of the server.
#[derive(Debug, Clone)]
pub struct Config {
    pub server_host: String,
    pub server_port: u16,
    pub database_url: String,
    pub storage_path: String,
    pub openlibrary_api_url: String,
}

/// The model of the settings.
pub struct ConfigView {
    pub server_host: Seq<char>,
    pub server_port: u16,
    pub database_url: Seq<char>,
    pub storage_path: Seq<char>,
    pub openlibrary_api_url: Seq<char>,
}

impl View for Config {
    type V = ConfigView;

    open spec fn view(&self) -> ConfigView {
        ConfigView {
            server_host: self.server_host@,
            server_port: self.server_port,
            database_url: self.database_url@,
            storage_path: self.storage_path@,
            openlibrary_api_url: self.openlibrary_api_url@,
        }
    }
}

/// The port that the server listens on where none is set.
pub const DEFAULT_PORT: u16 = 8080;

/// The character that writes the digit `d`.
pub open spec fn digit_char(d: int) -> char {
    if d == 0 {
        '0'
    } else if d == 1 {
        '1'
    } else if d == 2 {
        '2'
    } else if d == 3 {
        '3'
    } else if d == 4 {
        '4'
    } else if d == 5 {
        '5'
    } else if d == 6 {
        '6'
    } else if d == 7 {
        '7'
    } else if d == 8 {
        '8'
    } else {
        '9'
    }
}

/// The digit that the character `c` writes.
pub open spec fn digit_value(c: char) -> int {
    c as int - '0' as int
}

/// A number in decimal digits, without leading zeros.
pub open spec fn decimal_text(n: nat) -> Seq<char>
    decreases n,
{
    if n < 10 {
        seq![digit_char(n as int)]
    } else {
        decimal_text(n / 10).push(digit_char((n % 10) as int))
    }
}

/// The number that decimal digits write.
pub open spec fn decimal_value(digits: Seq<char>) -> nat
    decreases digits.len(),
{
    if digits.len() == 0 {
        0
    } else {
        (10 * decimal_value(digits.drop_last()) + digit_value(digits.last())) as nat
    }
}

/// The digits of a port, without the plus sign that may stand before
/// them.
pub open spec fn unsigned_part(text: Seq<char>) -> Seq<char> {
    if text.len() > 0 && text[0] == '+' {
        text.skip(1)
    } else {
        text
    }
}

/// The port that a text writes: decimal digits, at least one, with or
/// without a plus sign before them, of a number up to 65535.
pub open spec fn port_of(text: Seq<char>) -> Option<u16> {
    let digits = unsigned_part(text);
    if digits.len() > 0 && all_ascii_digits(digits) && decimal_value(digits) <= 65535 {
        Some(decimal_value(digits) as u16)
    } else {
        None
    }
}

/// The address that the server listens on.
pub open spec fn address_text(host: Seq<char>, port: u16) -> Seq<char> {
    host + ":"@ + decimal_text(port as nat)
}

/// A setting, or its default where it is not set.
pub open spec fn setting_or(value: Option<Seq<char>>, default: Seq<char>) -> Seq<char> {
    match value {
        Some(v) => v,
        None => default,
    }
}

/// The settings that the variables of the environment amount to. A port
/// that is not set, or that is no port, is the default port.
pub open spec fn config_of(
    host: Option<Seq<char>>,
    port: Option<Seq<char>>,
    database_url: Option<Seq<char>>,
    storage_path: Option<Seq<char>>,
    openlibrary_api_url: Option<Seq<char>>,
) -> ConfigView {
    ConfigView {
        server_host: setting_or(host, "127.0.0.1"@),
        server_port: match port {
            Some(text) => match port_of(text) {
                Some(p) => p,
                None => DEFAULT_PORT,
            },
            None => DEFAULT_PORT,
        },
        database_url: setting_or(database_url, "sqlite://data/ez-books.db"@),
        storage_path: setting_or(storage_path, "./data"@),
        openlibrary_api_url: setting_or(openlibrary_api_url, "https://openlibrary.org"@),
    }
}

/// More digits never write a smaller number.
proof fn lemma_decimal_value_grows(digits: Seq<char>, i: int)
    requires
        all_ascii_digits(digits),
        0 <= i <= digits.len(),
    ensures
        decimal_value(digits.take(i)) <= decimal_value(digits),
    decreases digits.len() - i,
{
    if i < digits.len() {
        lemma_decimal_value_grows(digits, i + 1);
        assert(digits.take(i + 1).drop_last() =~= digits.take(i));
        assert(is_ascii_digit(digits[i]));
        assert(digits.take(i + 1).last() == digits[i]);
    } else {
        assert(digits.take(i) =~= digits);
    }
}

/// The port that a text writes.
pub fn parse_port(text: &str) -> (port: Option<u16>)
    ensures
        port == port_of(text@),
{
    let chars = chars_of(text);
    let start: usize = if chars.len() > 0 && chars[0] == '+' {
        1
    } else {
        0
    };
    let ghost digits = unsigned_part(text@);
    assert(digits =~= chars@.skip(start as int));
    if start == chars.len() {
        return None;
    }
    let mut value: u32 = 0;
    let mut i: usize = start;
    assert(digits.take(0) =~= Seq::<char>::empty());
    while i < chars.len()
        invariant
            start <= i <= chars.len(),
            start <= 1,
            digits == chars@.skip(start as int),
            digits == unsigned_part(text@),
            all_ascii_digits(digits.take(i - start)),
            value == decimal_value(digits.take(i - start)),
            value <= 65535,
        decreases chars.len() - i,
    {
        let c = chars[i];
        let ghost k = i - start;
        assert(digits[k] == c);
        if !(c >= '0' && c <= '9') {
            assert(!is_ascii_digit(digits[k]));
            return None;
        }
        let d: u32 = c as u32 - '0' as u32;
        proof {
            assert(digits.take(k + 1).drop_last() =~= digits.take(k));
            assert(digits.take(k + 1).last() == c);
            assert(all_ascii_digits(digits.take(k + 1))) by {
                assert forall|j: int| 0 <= j < k + 1 implies is_ascii_digit(
                    #[trigger] digits.take(k + 1)[j],
                ) by {
                    if j < k {
                        assert(digits.take(k + 1)[j] == digits.take(k)[j]);
                    }
                }
            }
        }
        value = 10 * value + d;
        assert(value == decimal_value(digits.take(k + 1)));
        if value > 65535 {
            proof {
                if all_ascii_digits(digits) {
                    lemma_decimal_value_grows(digits, k + 1);
                }
            }
            return None;
        }
        i += 1;
    }
    assert(digits.take(chars.len() - start) =~= digits);
    Some(value as u16)
}

/// The character that writes the digit `d`.
fn digit(d: u16) -> (c: char)
    requires
        d < 10,
    ensures
        c == digit_char(d as int),
{
    if d == 0 {
        '0'
    } else if d == 1 {
        '1'
    } else if d == 2 {
        '2'
    } else if d == 3 {
        '3'
    } else if d == 4 {
        '4'
    } else if d == 5 {
        '5'
    } else if d == 6 {
        '6'
    } else if d == 7 {
        '7'
    } else if d == 8 {
        '8'
    } else {
        '9'
    }
}

/// Appends `n` in decimal digits.
fn push_decimal(out: &mut String, n: u16)
    ensures
        final(out)@ == old(out)@ + decimal_text(n as nat),
    decreases n,
{
    if n >= 10 {
        push_decimal(out, n / 10);
    }
    let ghost before = out@;
    out.push(digit(n % 10));
    assert(out@ =~= old(out)@ + decimal_text(n as nat)) by {
        if n >= 10 {
            assert(before == old(out)@ + decimal_text((n / 10) as nat));
        } else {
            assert(before == old(out)@);
        }
    }
}

/// A setting, or its default where it is not set.
fn value_or(value: Option<String>, default: &str) -> (out: String)
    ensures
        out@ == setting_or(value.deep_view(), default@),
{
    match value {
        Some(v) => v,
        None => String::from_str(default),
    }
}

impl Config {
    /// The settings that the variables of the environment amount to, each
    /// given as its value where it is set.
    pub fn from_vars(
        host: Option<String>,
        port: Option<String>,
        database_url: Option<String>,
        storage_path: Option<String>,
        openlibrary_api_url: Option<String>,
    ) -> (config: Config)
        ensures
            config@ == config_of(
                host.deep_view(),
                port.deep_view(),
                database_url.deep_view(),
                storage_path.deep_view(),
                openlibrary_api_url.deep_view(),
            ),
    {
        let server_port = match &port {
            Some(text) => match parse_port(text.as_str()) {
                Some(p) => p,
                None => DEFAULT_PORT,
            },
            None => DEFAULT_PORT,
        };
        Config {
            server_host: value_or(host, "127.0.0.1"),
            server_port,
            database_url: value_or(database_url, "sqlite://data/ez-books.db"),
            storage_path: value_or(storage_path, "./data"),
            openlibrary_api_url: value_or(openlibrary_api_url, "https://openlibrary.org"),
        }
    }

    /// The address that the server listens on: host, colon, port.
    pub fn server_address(&self) -> (address: String)
        ensures
            address@ == address_text(self@.server_host, self@.server_port),
    {
        let mut address = self.server_host.clone();
        address.append(":");
        push_decimal(&mut address, self.server_port);
        address
    }
}

} // verus!
