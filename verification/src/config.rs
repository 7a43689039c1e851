//! Startup configuration: the listening port and the optional bearer token.

use vstd::prelude::*;
use vstd::string::*;
use vstd::utf8::is_ascii_chars;

verus! {

/// Port that the listener binds when none is configured.
pub const DEFAULT_PORT: u16 = 3000;

/// Why startup was abandoned. Every variant is fatal.
#[derive(Debug, Clone, PartialEq, Eq)]
pub enum ConfigError {
    /// The configured port is not a decimal number between 1 and 65535.
    InvalidPort,
    /// The daemon could not be initialized; the text is its own description.
    DaemonInit(String),
}

/// True for the ten ASCII decimal digits.
pub open spec fn is_digit(c: char) -> bool {
    '0' <= c && c <= '9'
}

/// The number that a decimal digit stands for.
pub open spec fn digit_value(c: char) -> nat {
    (c as int - '0' as int) as nat
}

/// True when every character of `digits` is a decimal digit.
pub open spec fn all_digits(digits: Seq<char>) -> bool {
    forall|i: int| 0 <= i < digits.len() ==> is_digit(#[trigger] digits[i])
}

/// The number written by a sequence of decimal digits, most significant first.
pub open spec fn decimal_value(digits: Seq<char>) -> nat
    decreases digits.len(),
{
    if digits.len() == 0 {
        0
    } else {
        decimal_value(digits.drop_last()) * 10 + digit_value(digits.last())
    }
}

/// The digits of a port text: the text itself, without one leading `+`.
pub open spec fn port_digits(text: Seq<char>) -> Seq<char> {
    if text.len() > 0 && text[0] == '+' {
        text.skip(1)
    } else {
        text
    }
}

/// The port that a configuration text denotes, if it denotes one: an optional
/// `+`, then one or more decimal digits whose value lies between 1 and 65535.
pub open spec fn port_of(text: Seq<char>) -> Option<u16> {
    let digits = port_digits(text);
    if digits.len() > 0 && all_digits(digits) && 1 <= decimal_value(digits) <= 65535 {
        Some(decimal_value(digits) as u16)
    } else {
        None
    }
}

/// A prefix of a digit sequence never denotes more than the whole sequence.
proof fn lemma_decimal_prefix(digits: Seq<char>, k: int)
    requires
        0 <= k <= digits.len(),
    ensures
        decimal_value(digits.take(k)) <= decimal_value(digits),
    decreases digits.len(),
{
    if k == digits.len() {
        assert(digits.take(k) =~= digits);
    } else {
        assert(digits.drop_last().take(k) =~= digits.take(k));
        lemma_decimal_prefix(digits.drop_last(), k);
    }
}

/// Reads a port from its configuration text.
pub fn parse_port(text: &str) -> (result: Result<u16, ConfigError>)
    ensures
        match port_of(text@) {
            Some(port) => result == Ok::<u16, ConfigError>(port),
            None => result == Err::<u16, ConfigError>(ConfigError::InvalidPort),
        },
{
    broadcast use is_ascii_spec_bytes;

    if !text.is_ascii() {
        proof {
            let digits = port_digits(text@);
            let i = choose|i: int| 0 <= i < text@.len() && !('\0' <= #[trigger] text@[i] <= '\u{7f}');
            if digits.len() == text@.len() {
                assert(!is_digit(digits[i]));
            } else {
                assert(digits[i - 1] == text@[i]);
                assert(!is_digit(digits[i - 1]));
            }
        }
        return Err(ConfigError::InvalidPort);
    }
    proof {
        is_ascii_spec_bytes(text);
    }
    let bytes: &[u8] = text.as_bytes();
    let n: usize = bytes.len();
    assert(n == text@.len());
    assert(forall|k: int| 0 <= k < n ==> bytes@[k] == (#[trigger] text@[k]) as u8);
    let mut i: usize = 0;
    if n > 0 && bytes[0] == 43u8 {
        assert(text@[0] == '+');
        i = 1;
    }
    let start: usize = i;
    let ghost digits = port_digits(text@);
    assert(digits =~= text@.skip(start as int)) by {
        if start == 0 && n > 0 {
            assert(bytes@[0] == text@[0] as u8);
        }
    }
    if i == n {
        return Err(ConfigError::InvalidPort);
    }
    let mut value: u32 = 0;
    while i < n
        invariant
            is_ascii_chars(text@),
            n == text@.len(),
            n == bytes@.len(),
            forall|k: int| 0 <= k < n ==> bytes@[k] == (#[trigger] text@[k]) as u8,
            start <= i <= n,
            digits == text@.skip(start as int),
            digits == port_digits(text@),
            all_digits(digits.take(i - start)),
            value == decimal_value(digits.take(i - start)),
            value <= 65535,
        decreases n - i,
    {
        let b: u8 = bytes[i];
        let ghost c = text@[i as int];
        assert(digits[i - start] == c);
        assert(b == c as u8);
        if b < 48u8 || b > 57u8 {
            assert(!is_digit(c));
            return Err(ConfigError::InvalidPort);
        }
        assert(is_digit(c));
        let ghost next = digits.take(i + 1 - start);
        proof {
            assert(next.drop_last() =~= digits.take(i - start));
            assert(next.last() == c);
            assert(digit_value(c) == b - 48);
            assert(decimal_value(next) == value * 10 + (b - 48));
            assert forall|j: int| 0 <= j < next.len() implies is_digit(#[trigger] next[j]) by {
                if j < next.len() - 1 {
                    assert(next[j] == digits.take(i - start)[j]);
                }
            }
            lemma_decimal_prefix(digits, i + 1 - start);
        }
        value = value * 10 + (b - 48u8) as u32;
        if value > 65535 {
            return Err(ConfigError::InvalidPort);
        }
        i = i + 1;
    }
    assert(digits.take(i - start) =~= digits);
    if value == 0 {
        return Err(ConfigError::InvalidPort);
    }
    Ok(value as u16)
}

} // verus!
