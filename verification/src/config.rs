//! The configuration of the service and its defaults.

use crate::text::chars_of;
use crate::time::all_digits;
use crate::time::number;
use vstd::prelude::*;
use vstd::string::StringExecFns;

verus! {

/// The port that is listened on where none is configured.
pub const DEFAULT_PORT: u16 = 8080;

/// The database that is opened where none is configured.
pub const DEFAULT_DATABASE_URL: &'static str = "sqlite:./data/calendar.db?mode=rwc";

/// The token secret that is used where none is configured.
pub const DEFAULT_JWT_SECRET: &'static str = "your-secret-key-change-in-production";

/// What the service is configured with.
#[derive(Clone, Debug)]
pub struct Config {
    pub port: u16,
    pub database_url: String,
    pub jwt_secret: String,
}

/// A configuration that cannot be used.
#[derive(Debug)]
pub struct ConfigError(pub String);

impl ConfigError {
    /// The error as a message.
    pub fn to_string(&self) -> (text: String)
        ensures
            text@ == "Configuration error: "@ + self.0@,
    {
        let mut text = String::new();
        text.append("Configuration error: ");
        text.append(self.0.as_str());
        text
    }
}

/// The port that a text names: decimal digits, with or without a plus sign
/// before them, that write a number up to 65535.
pub open spec fn port_named(s: Seq<char>) -> Option<u16> {
    let digits = if s.len() > 0 && s[0] == '+' {
        s.skip(1)
    } else {
        s
    };
    if digits.len() > 0 && all_digits(digits) && number(digits) <= u16::MAX {
        Some(number(digits) as u16)
    } else {
        None
    }
}

/// The port of a configuration value; the default where the value is absent
/// or names no port.
pub open spec fn port_or_default(value: Option<Seq<char>>) -> u16 {
    match value {
        Some(s) => match port_named(s) {
            Some(p) => p,
            None => DEFAULT_PORT,
        },
        None => DEFAULT_PORT,
    }
}

/// The text of a configuration value; the default where the value is absent.
pub open spec fn text_or_default(value: Option<String>, default: Seq<char>) -> Seq<char> {
    match value {
        Some(s) => s@,
        None => default,
    }
}

/// The view of an optional string slice.
pub open spec fn value_view(v: Option<&str>) -> Option<Seq<char>> {
    match v {
        Some(s) => Some(s@),
        None => None,
    }
}

/// A digit string writes at least what any of its beginnings writes.
pub proof fn lemma_number_grows(s: Seq<char>, i: int)
    requires
        0 <= i <= s.len(),
        all_digits(s),
    ensures
        number(s.take(i)) <= number(s),
    decreases s.len() - i,
{
    if i < s.len() {
        let longer = s.take(i + 1);
        assert(longer.drop_last() == s.take(i));
        lemma_number_grows(s, i + 1);
    } else {
        assert(s.take(i) == s);
    }
}

/// Reads a port number.
pub fn parse_port(s: &str) -> (r: Option<u16>)
    ensures
        r == port_named(s@),
{
    let chars = chars_of(s);
    let start: usize = if chars.len() > 0 && chars[0] == '+' {
        1
    } else {
        0
    };
    let digits = vstd::slice::slice_subrange(chars.as_slice(), start, chars.len());
    assert(digits@ == if s@.len() > 0 && s@[0] == '+' {
        s@.skip(1)
    } else {
        s@
    });
    if digits.len() == 0 {
        return None;
    }
    let mut value: u32 = 0;
    let mut i: usize = 0;
    while i < digits.len()
        invariant
            i <= digits.len(),
            digits.len() > 0,
            digits@ == if s@.len() > 0 && s@[0] == '+' {
                s@.skip(1)
            } else {
                s@
            },
            value == number(digits@.take(i as int)),
            value <= u16::MAX,
            all_digits(digits@.take(i as int)),
        decreases digits.len() - i,
    {
        let symbol: char = digits[i];
        let c: u32 = symbol as u32;
        proof {
            vstd::utf8::char_u32_cast(symbol, c);
        }
        if c < '0' as u32 || c > '9' as u32 {
            return None;
        }

        let next: u32 = value * 10 + (c - '0' as u32);
        proof {
            let longer = digits@.take(i + 1);
            assert(longer.drop_last() == digits@.take(i as int));
            if all_digits(digits@) {
                lemma_number_grows(digits@, i + 1);
            }
        }
        if next > 65535 {
            return None;
        }
        value = next;
        i += 1;
    }
    assert(digits@.take(digits.len() as int) == digits@);
    Some(value as u16)
}

impl Default for Config {
    /// The configuration of a service for which nothing was configured.
    fn default() -> (config: Config)
        ensures
            config.port == DEFAULT_PORT,
            config.database_url@ == DEFAULT_DATABASE_URL@,
            config.jwt_secret@ == DEFAULT_JWT_SECRET@,
    {
        Config {
            port: DEFAULT_PORT,
            database_url: DEFAULT_DATABASE_URL.to_owned(),
            jwt_secret: DEFAULT_JWT_SECRET.to_owned(),
        }
    }
}

impl Config {
    /// The configuration that the environment gives, from the values of its
    /// variables `PORT`, `DATABASE_URL` and `JWT_SECRET`, each absent where
    /// the variable is not set. An absent value, and a port that names no
    /// port, give the default.
    pub fn from_env(
        port: Option<&str>,
        database_url: Option<String>,
        jwt_secret: Option<String>,
    ) -> (r: Result<Config, ConfigError>)
        ensures
            r is Ok,
            r->Ok_0.port == port_or_default(value_view(port)),
            r->Ok_0.database_url@ == text_or_default(database_url, DEFAULT_DATABASE_URL@),
            r->Ok_0.jwt_secret@ == text_or_default(jwt_secret, DEFAULT_JWT_SECRET@),
    {
        let port = match port {
            Some(text) => match parse_port(text) {
                Some(p) => p,
                None => DEFAULT_PORT,
            },
            None => DEFAULT_PORT,
        };
        let database_url = match database_url {
            Some(url) => url,
            None => DEFAULT_DATABASE_URL.to_owned(),
        };
        let jwt_secret = match jwt_secret {
            Some(secret) => secret,
            None => DEFAULT_JWT_SECRET.to_owned(),
        };
        Ok(Config { port, database_url, jwt_secret })
    }
}

} // verus!
