//! Settings of the token service, as the configuration source supplies them.
//!
//! The signing secret and the raw lifetime setting are read once at startup
//! by the caller; this module turns them into an [`AuthConfig`].

use vstd::prelude::*;
use crate::text::{digit_value, is_digit, slice_option};

verus! {

/// Name of the setting that holds the token lifetime. Its value is a number
/// of seconds.
pub const TOKEN_TTL_SETTING: &'static str = "EXP_TOKEN_IN_MINUTE";

/// Token lifetime in seconds when the setting is absent or unreadable.
pub const DEFAULT_TOKEN_TTL: u64 = 5000;

/// Name of the setting that holds the signing secret.
pub const SECRET_SETTING: &'static str = "JWT_SECRET";

/// Name of the setting that holds the listen port.
pub const PORT_SETTING: &'static str = "APP_PORT";

/// Listen port when the setting is absent.
pub const DEFAULT_PORT: u16 = 8080;

/// What the token service needs to sign and to check tokens.
#[derive(Clone, Debug)]
pub struct AuthConfig {
    /// Symmetric signing secret.
    pub secret: String,
    /// Lifetime of an issued token, in seconds.
    pub token_ttl: u64,
}

/// Whether `s` consists of ASCII digits only.
pub open spec fn all_digits(s: Seq<char>) -> bool {
    forall|i: int| 0 <= i < s.len() ==> is_digit(#[trigger] s[i])
}

/// The number written by the decimal digits `s`, most significant first.
pub open spec fn digits_value(s: Seq<char>) -> nat
    decreases s.len(),
{
    if s.len() == 0 {
        0
    } else {
        digits_value(s.drop_last()) * 10 + digit_value(s.last())
    }
}

/// `s` without a leading plus sign.
pub open spec fn unsigned_part(s: Seq<char>) -> Seq<char> {
    if s.len() > 0 && s[0] == '+' {
        s.subrange(1, s.len() as int)
    } else {
        s
    }
}

/// The unsigned 64-bit number that `s` writes in decimal: an optional plus
/// sign, then one or more ASCII digits and nothing else, with a value that
/// fits. `None` for every other text.
pub open spec fn parse_decimal(s: Seq<char>) -> Option<u64> {
    let digits = unsigned_part(s);
    if digits.len() > 0 && all_digits(digits) && digits_value(digits) <= u64::MAX {
        Some(digits_value(digits) as u64)
    } else {
        None
    }
}

/// The token lifetime for a raw setting: its number where it parses, the
/// default where it is absent or does not parse.
pub open spec fn ttl_of_setting(setting: Option<Seq<char>>) -> u64 {
    match setting {
        Some(text) => match parse_decimal(text) {
            Some(seconds) => seconds,
            None => DEFAULT_TOKEN_TTL,
        },
        None => DEFAULT_TOKEN_TTL,
    }
}

/// The listen port for a raw setting: the default where it is absent, its
/// number where it writes one that fits sixteen bits, and `None` for every
/// other text.
pub open spec fn port_of_setting(setting: Option<Seq<char>>) -> Option<u16> {
    match setting {
        Some(text) => match parse_decimal(text) {
            Some(number) => if number <= u16::MAX {
                Some(number as u16)
            } else {
                None
            },
            None => None,
        },
        None => Some(DEFAULT_PORT),
    }
}

/// A number never shrinks when digits are appended to it.
proof fn lemma_digits_value_grows(s: Seq<char>, k: int)
    requires
        0 <= k <= s.len(),
    ensures
        digits_value(s.subrange(0, k)) <= digits_value(s),
    decreases s.len() - k,
{
    if k == s.len() {
        assert(s.subrange(0, k) == s);
    } else {
        lemma_digits_value_grows(s.drop_last(), k);
        assert(s.drop_last().subrange(0, k) == s.subrange(0, k));
    }
}

/// Reads an unsigned decimal number.
pub fn parse_u64(text: &str) -> (number: Option<u64>)
    ensures
        number == parse_decimal(text@),
{
    let n = text.unicode_len();
    let start: usize = if n > 0 && text.get_char(0) == '+' {
        1
    } else {
        0
    };
    if start == n {
        return None;
    }
    let ghost digits = unsigned_part(text@);
    assert(digits == text@.subrange(start as int, n as int));
    let mut value: u64 = 0;
    let mut i: usize = start;
    while i < n
        invariant
            start <= i <= n,
            n == text@.len(),
            digits == unsigned_part(text@),
            digits == text@.subrange(start as int, n as int),
            all_digits(digits.subrange(0, i - start)),
            value == digits_value(digits.subrange(0, i - start)),
        decreases n - i,
    {
        let c = text.get_char(i);
        assert(c == digits[i - start]);
        if !('0' <= c && c <= '9') {
            assert(!is_digit(digits[i - start]));
            return None;
        }
        let digit: u64 = (c as u32 - '0' as u32) as u64;
        let ghost longer = digits.subrange(0, i - start + 1);
        assert(longer.drop_last() == digits.subrange(0, i - start));
        assert(longer.last() == c);
        assert(digits_value(longer) == value * 10 + digit);
        if value > (u64::MAX - digit) / 10 {
            proof {
                lemma_digits_value_grows(digits, i - start + 1);
                assert(digits_value(digits) > u64::MAX);
            }
            return None;
        }
        value = value * 10 + digit;
        assert forall|j: int| 0 <= j < longer.len() implies is_digit(#[trigger] longer[j]) by {
            if j < i - start {
                assert(longer[j] == digits.subrange(0, i - start)[j]);
            }
        }
        i = i + 1;
    }
    assert(digits.subrange(0, n - start) == digits);
    Some(value)
}

/// The token lifetime for a raw setting.
pub fn token_ttl(setting: Option<&str>) -> (seconds: u64)
    ensures
        seconds == ttl_of_setting(slice_option(setting)),
{
    match setting {
        Some(text) => match parse_u64(text) {
            Some(seconds) => seconds,
            None => DEFAULT_TOKEN_TTL,
        },
        None => DEFAULT_TOKEN_TTL,
    }
}

/// The listen port for a raw setting. `None` tells the caller that the
/// setting is present but is no port number.
pub fn listen_port(setting: Option<&str>) -> (port: Option<u16>)
    ensures
        port == port_of_setting(slice_option(setting)),
{
    match setting {
        Some(text) => match parse_u64(text) {
            Some(number) => {
                if number <= u16::MAX as u64 {
                    Some(number as u16)
                } else {
                    None
                }
            },
            None => None,
        },
        None => Some(DEFAULT_PORT),
    }
}

impl AuthConfig {
    /// Builds the settings from the signing secret and the raw lifetime
    /// setting.
    pub fn new(secret: String, ttl_setting: Option<&str>) -> (config: AuthConfig)
        ensures
            config.secret == secret,
            config.token_ttl == ttl_of_setting(slice_option(ttl_setting)),
    {
        AuthConfig { secret, token_ttl: token_ttl(ttl_setting) }
    }
}

} // verus!
