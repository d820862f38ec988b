//! The settings of the gateway, resolved from what the environment holds.

use crate::text::clone_text;
use vstd::prelude::*;

verus! {

/// The variable that names the port to listen on.
pub const PORT_VARIABLE: &'static str = "PORT";

/// The variable that holds the address of the memory backend.
pub const MEMORY_SERVICE_URL_VARIABLE: &'static str = "MEMORY_SERVICE_URL";

/// The variable that holds the address of the intelligence backend.
pub const INTELLIGENCE_SERVICE_URL_VARIABLE: &'static str = "INTELLIGENCE_SERVICE_URL";

/// The variable that holds the secret for tokens.
pub const JWT_SECRET_VARIABLE: &'static str = "JWT_SECRET";

/// The variable that holds the address of the database.
pub const DATABASE_URL_VARIABLE: &'static str = "DATABASE_URL";

/// The port to listen on where the environment names none.
pub const DEFAULT_PORT: u16 = 7000;

/// The settings of the gateway.
#[derive(Clone, Debug, PartialEq, Eq)]
pub struct Config {
    pub port: u16,
    pub memory_service_url: String,
    pub intelligence_service_url: String,
    pub jwt_secret: String,
    pub database_url: Option<String>,
}

/// What the environment holds under each of the variables that the gateway
/// reads; `None` for a variable that is unset or is not text.
#[derive(Clone, Debug, PartialEq, Eq)]
pub struct Environment {
    pub port: Option<String>,
    pub memory_service_url: Option<String>,
    pub intelligence_service_url: Option<String>,
    pub jwt_secret: Option<String>,
    pub database_url: Option<String>,
}

/// Whether `b` is the code of a decimal digit.
pub open spec fn is_digit(b: u8) -> bool {
    48 <= b <= 57
}

/// Whether `digits` holds decimal digits only.
pub open spec fn all_digits(digits: Seq<u8>) -> bool {
    forall|i: int| 0 <= i < digits.len() ==> is_digit(#[trigger] digits[i])
}

/// The number that the decimal digits `digits` write.
pub open spec fn digits_value(digits: Seq<u8>) -> nat
    decreases digits.len(),
{
    if digits.len() == 0 {
        0
    } else {
        digits_value(digits.drop_last()) * 10 + (digits.last() - 48) as nat
    }
}

/// The digits of a port setting: the text without a leading plus sign.
pub open spec fn port_digits(text: Seq<u8>) -> Seq<u8> {
    if text.len() > 0 && text[0] == 43 {
        text.skip(1)
    } else {
        text
    }
}

/// The port that the bytes `text` write: an optional plus sign, then one or
/// more decimal digits whose number is at most 65535. Anything else writes no
/// port.
pub open spec fn parsed_port(text: Seq<u8>) -> Option<u16> {
    let digits = port_digits(text);
    if digits.len() > 0 && all_digits(digits) && digits_value(digits) <= 65535 {
        Some(digits_value(digits) as u16)
    } else {
        None
    }
}

/// The port that the setting `port` asks for: the default where there is no
/// setting, none where the setting writes no port.
pub open spec fn port_setting(port: Option<String>) -> Option<u16> {
    match port {
        Some(text) => parsed_port(vstd::utf8::encode_utf8(text@)),
        None => Some(DEFAULT_PORT),
    }
}

/// `setting`, or `default` where there is none.
pub open spec fn setting_or(setting: Option<String>, default: Seq<char>) -> Seq<char> {
    match setting {
        Some(text) => text@,
        None => default,
    }
}

proof fn value_grows(digits: Seq<u8>, k: int)
    requires
        all_digits(digits),
        0 <= k <= digits.len(),
    ensures
        digits_value(digits.take(k)) <= digits_value(digits),
    decreases digits.len() - k,
{
    if k == digits.len() {
        assert(digits.take(k) =~= digits);
    } else {
        value_grows(digits, k + 1);
        assert(digits.take(k + 1).drop_last() =~= digits.take(k));
        assert(is_digit(digits[k]));
        assert(digits.take(k + 1).last() == digits[k]);
    }
}

/// Reads a port out of `text`.
pub fn parse_port(text: &[u8]) -> (r: Option<u16>)
    ensures
        r == parsed_port(text@),
{
    let start: usize = if text.len() > 0 && text[0] == 43 {
        1
    } else {
        0
    };
    let ghost digits = port_digits(text@);
    assert(digits =~= text@.skip(start as int));
    if start == text.len() {
        return None;
    }
    let mut value: u32 = 0;
    let mut i: usize = start;
    while i < text.len()
        invariant
            start <= i <= text.len(),
            digits == text@.skip(start as int),
            digits == port_digits(text@),
            all_digits(digits.take(i - start)),
            value == digits_value(digits.take(i - start)),
            value <= 65535,
        decreases text.len() - i,
    {
        let b = text[i];
        let ghost k = i - start;
        assert(digits[k] == b);
        assert(digits.take(k + 1).drop_last() =~= digits.take(k));
        assert(digits.take(k + 1).last() == b);
        if b < 48 || b > 57 {
            assert(!is_digit(digits[k]));
            assert(!all_digits(digits));
            return None;
        }
        let next: u32 = value * 10 + (b - 48) as u32;
        assert(next == digits_value(digits.take(k + 1)));
        assert(all_digits(digits.take(k + 1))) by {
            assert forall|j: int| 0 <= j < k + 1 implies is_digit(#[trigger] digits.take(k + 1)[j]) by {
                if j < k {
                    assert(digits.take(k)[j] == digits.take(k + 1)[j]);
                }
            }
        }
        if next > 65535 {
            proof {
                if all_digits(digits) {
                    value_grows(digits, k + 1);
                    assert(digits_value(digits) > 65535);
                }
            }
            return None;
        }
        value = next;
        i = i + 1;
    }
    assert(digits.take(i - start) =~= digits);
    Some(value as u16)
}

impl Config {
    /// Resolves the settings. A variable that the environment does not hold
    /// takes its default; the address of the database has none.
    ///
    /// Returns `None` exactly where the port is set to something that writes
    /// no port.
    pub fn from_env(env: &Environment) -> (r: Option<Config>)
        ensures
            match port_setting(env.port) {
                Some(port) => r matches Some(config) && {
                    &&& config.port == port
                    &&& config.memory_service_url@ == setting_or(env.memory_service_url, "http://memory:8001"@)
                    &&& config.intelligence_service_url@ == setting_or(
                        env.intelligence_service_url,
                        "http://intelligence:8000"@,
                    )
                    &&& config.jwt_secret@ == setting_or(env.jwt_secret, "your-secret-key"@)
                    &&& config.database_url.deep_view() == env.database_url.deep_view()
                },
                None => r is None,
            },
    {
        let port = match &env.port {
            Some(text) => match parse_port(text.as_str().as_bytes()) {
                Some(port) => port,
                None => {
                    return None;
                },
            },
            None => DEFAULT_PORT,
        };
        Some(
            Config {
                port,
                memory_service_url: setting(&env.memory_service_url, "http://memory:8001"),
                intelligence_service_url: setting(&env.intelligence_service_url, "http://intelligence:8000"),
                jwt_secret: setting(&env.jwt_secret, "your-secret-key"),
                database_url: clone_text(&env.database_url),
            },
        )
    }
}

fn setting(value: &Option<String>, default: &str) -> (r: String)
    ensures
        r@ == setting_or(*value, default@),
{
    match value {
        Some(text) => text.clone(),
        None => String::from_str(default),
    }
}

} // verus!
