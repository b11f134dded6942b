//! Configuration of the services: the addresses of the stores, which must be
//! given, and the settings that have a default.

use crate::text::{chars_of, join2};
use vstd::prelude::*;

verus! {

/// Why the configuration could not be loaded.
#[derive(Debug)]
pub enum ConfigError {
    /// The variable of this name is not set.
    MissingVariable(String),
    /// The environment file could not be read; the text says why.
    Dotenv(String),
}

/// Why a client of a store could not be created.
#[derive(Debug)]
pub enum ClientCreationError {
    /// The document store refused; the text says why.
    Mongo(String),
    /// The cache refused; the text says why.
    Redis(String),
    /// The configuration is incomplete.
    Config(ConfigError),
}

/// The description of a configuration error.
pub open spec fn config_error_text(e: ConfigError) -> Seq<char> {
    match e {
        ConfigError::MissingVariable(name) => "Missing environment variable: "@ + name@,
        ConfigError::Dotenv(why) => "Dotenv error: "@ + why@,
    }
}

/// The description of a failure to create a client.
pub open spec fn client_creation_error_text(e: ClientCreationError) -> Seq<char> {
    match e {
        ClientCreationError::Mongo(why) => "MongoDB client error: "@ + why@,
        ClientCreationError::Redis(why) => "Redis client error: "@ + why@,
        ClientCreationError::Config(inner) => "Configuration error: "@ + config_error_text(inner),
    }
}

impl ConfigError {
    /// A description of the error for logs.
    pub fn describe(&self) -> (text: String)
        ensures
            text@ == config_error_text(*self),
    {
        match self {
            ConfigError::MissingVariable(name) => join2(
                "Missing environment variable: ",
                name.as_str(),
            ),
            ConfigError::Dotenv(why) => join2("Dotenv error: ", why.as_str()),
        }
    }
}

impl ClientCreationError {
    /// A description of the error for logs.
    pub fn describe(&self) -> (text: String)
        ensures
            text@ == client_creation_error_text(*self),
    {
        match self {
            ClientCreationError::Mongo(why) => join2("MongoDB client error: ", why.as_str()),
            ClientCreationError::Redis(why) => join2("Redis client error: ", why.as_str()),
            ClientCreationError::Config(inner) => join2(
                "Configuration error: ",
                inner.describe().as_str(),
            ),
        }
    }
}

impl From<ConfigError> for ClientCreationError {
    fn from(err: ConfigError) -> (ret: Self) {
        ClientCreationError::Config(err)
    }
}

impl vstd::std_specs::convert::FromSpecImpl<ConfigError> for ClientCreationError {
    open spec fn obeys_from_spec() -> bool {
        true
    }

    open spec fn from_spec(err: ConfigError) -> Self {
        ClientCreationError::Config(err)
    }
}

/// The addresses of the document store and of the cache, from the values of
/// the variables `MONGO_URI` and `REDIS_URI`. Both must be set; where both
/// are missing, the error names the first.
pub fn load_config(mongo_uri: Option<String>, redis_uri: Option<String>) -> (r: Result<
    (String, String),
    ConfigError,
>)
    ensures
        match (mongo_uri, redis_uri) {
            (Some(m), Some(u)) => r == Ok::<(String, String), ConfigError>((m, u)),
            (Some(_), None) => r matches Err(ConfigError::MissingVariable(name)) && name@
                == "REDIS_URI"@,
            (None, _) => r matches Err(ConfigError::MissingVariable(name)) && name@
                == "MONGO_URI"@,
        },
{
    match mongo_uri {
        None => Err(ConfigError::MissingVariable(String::from_str("MONGO_URI"))),
        Some(m) => match redis_uri {
            None => Err(ConfigError::MissingVariable(String::from_str("REDIS_URI"))),
            Some(u) => Ok((m, u)),
        },
    }
}

/// `value` where it is set, else `default`.
pub fn setting_or(value: Option<String>, default: &str) -> (r: String)
    ensures
        r@ == (match value {
            Some(v) => v@,
            None => default@,
        }),
{
    match value {
        Some(v) => v,
        None => String::from_str(default),
    }
}

/// Whether `c` is one of `0`-`9`.
pub open spec fn is_decimal_digit(c: char) -> bool {
    0x30 <= c as u32 <= 0x39
}

/// The number that a sequence of decimal digits writes.
pub open spec fn decimal_value(digits: Seq<char>) -> int
    decreases digits.len(),
{
    if digits.len() == 0 {
        0
    } else {
        decimal_value(digits.drop_last()) * 10 + (digits.last() as u32 - 0x30)
    }
}

/// `text` without a plus sign at its start.
pub open spec fn unsigned_part(text: Seq<char>) -> Seq<char> {
    if text.len() > 0 && text[0] == '+' {
        text.subrange(1, text.len() as int)
    } else {
        text
    }
}

/// The port that `text` writes: decimal digits, at least one, after an
/// optional plus sign, with a value of at most 65535. Anything else writes no
/// port.
pub open spec fn port_in(text: Seq<char>) -> Option<u16> {
    let digits = unsigned_part(text);
    if digits.len() > 0 && (forall|i: int|
        0 <= i < digits.len() ==> is_decimal_digit(#[trigger] digits[i])) && decimal_value(digits)
        <= u16::MAX {
        Some(decimal_value(digits) as u16)
    } else {
        None
    }
}

/// The number that the first digits of a sequence of digits write is no
/// larger than the number that all of them write.
pub proof fn lemma_decimal_value_grows(digits: Seq<char>, n: int)
    requires
        0 <= n <= digits.len(),
        forall|i: int| 0 <= i < digits.len() ==> is_decimal_digit(#[trigger] digits[i]),
    ensures
        0 <= decimal_value(digits.take(n)) <= decimal_value(digits),
    decreases digits.len() - n,
{
    if n == digits.len() {
        assert(digits.take(n) =~= digits);
        lemma_decimal_value_nonnegative(digits);
    } else {
        lemma_decimal_value_grows(digits, n + 1);
        assert(digits.take(n + 1).drop_last() =~= digits.take(n));
        lemma_decimal_value_nonnegative(digits.take(n));
    }
}

/// Digits write no negative number.
pub proof fn lemma_decimal_value_nonnegative(digits: Seq<char>)
    requires
        forall|i: int| 0 <= i < digits.len() ==> is_decimal_digit(#[trigger] digits[i]),
    ensures
        0 <= decimal_value(digits),
    decreases digits.len(),
{
    if digits.len() > 0 {
        lemma_decimal_value_nonnegative(digits.drop_last());
    }
}

/// The port that `text` writes, if it writes one.
pub fn parse_port(text: &str) -> (port: Option<u16>)
    ensures
        port == port_in(text@),
{
    let chars = chars_of(text);
    let n = chars.len();
    let start: usize = if n > 0 && chars[0] == '+' {
        1
    } else {
        0
    };
    let ghost digits = unsigned_part(text@);
    if start == n {
        return None;
    }
    let mut value: u32 = 0;
    let mut i: usize = start;
    while i < n
        invariant
            start <= i <= n,
            chars@ == text@,
            n == text@.len(),
            digits == unsigned_part(text@),
            digits == text@.subrange(start as int, n as int),
            value == decimal_value(digits.take(i - start)),
            value <= u16::MAX,
            forall|k: int| 0 <= k < i - start ==> is_decimal_digit(#[trigger] digits[k]),
        decreases n - i,
    {
        let c = chars[i];
        assert(c == digits[i - start]);
        let code: u32 = c as u32;
        if code < 0x30 || code > 0x39 {
            return None;
        }
        let digit: u32 = code - 0x30;
        let next: u32 = value * 10 + digit;
        proof {
            assert(digits.take(i - start + 1).drop_last() =~= digits.take(i - start));
        }
        if next > 65535 {
            proof {
                if forall|k: int| 0 <= k < digits.len() ==> is_decimal_digit(#[trigger] digits[k]) {
                    lemma_decimal_value_grows(digits, i - start + 1);
                }
            }
            return None;
        }
        value = next;
        i = i + 1;
    }
    assert(digits.take(n - start) =~= digits);
    Some(value as u16)
}

/// The port on which a service listens: the one that `text` writes, or
/// `default` where the setting is absent or writes no port.
pub fn service_port(text: Option<String>, default: u16) -> (port: u16)
    ensures
        port == (match text {
            Some(t) => match port_in(t@) {
                Some(p) => p,
                None => default,
            },
            None => default,
        }),
{
    match text {
        Some(t) => match parse_port(t.as_str()) {
            Some(p) => p,
            None => default,
        },
        None => default,
    }
}

/// The character that writes the digit `d`.
pub open spec fn digit_char(d: int) -> char {
    (0x30 + d) as char
}

/// The decimal digits that write `n`, without leading zeros.
pub open spec fn decimal_digits(n: nat) -> Seq<char>
    decreases n,
{
    if n < 10 {
        seq![digit_char(n as int)]
    } else {
        decimal_digits(n / 10).push(digit_char((n % 10) as int))
    }
}

/// The digits that write a number are digits, and they write that number.
pub proof fn lemma_decimal_digits(n: nat)
    ensures
        decimal_digits(n).len() > 0,
        forall|i: int|
            0 <= i < decimal_digits(n).len() ==> is_decimal_digit(#[trigger] decimal_digits(n)[i]),
        decimal_value(decimal_digits(n)) == n,
    decreases n,
{
    if n < 10 {
        let digits = decimal_digits(n);
        assert(decimal_value(digits.drop_last()) == 0);
    } else {
        lemma_decimal_digits(n / 10);
        let front = decimal_digits(n / 10);
        let digits = decimal_digits(n);
        assert(digits.drop_last() =~= front);
        assert forall|i: int| 0 <= i < digits.len() implies is_decimal_digit(
            #[trigger] digits[i],
        ) by {
        }
    }
}

/// A port that is written in decimal and read again is the same port.
pub proof fn law_port_round_trip(port: u16)
    ensures
        port_in(decimal_digits(port as nat)) == Some(port),
{
    lemma_decimal_digits(port as nat);
}

/// The text of one digit.
fn digit_text(d: u16) -> (text: &'static str)
    requires
        d < 10,
    ensures
        text@ == seq![digit_char(d as int)],
{
    proof {
        reveal_strlit("0");
        reveal_strlit("1");
        reveal_strlit("2");
        reveal_strlit("3");
        reveal_strlit("4");
        reveal_strlit("5");
        reveal_strlit("6");
        reveal_strlit("7");
        reveal_strlit("8");
        reveal_strlit("9");
    }
    let text = if d == 0 {
        "0"
    } else if d == 1 {
        "1"
    } else if d == 2 {
        "2"
    } else if d == 3 {
        "3"
    } else if d == 4 {
        "4"
    } else if d == 5 {
        "5"
    } else if d == 6 {
        "6"
    } else if d == 7 {
        "7"
    } else if d == 8 {
        "8"
    } else {
        "9"
    };
    text
}

/// `n` in decimal digits, without leading zeros.
pub fn decimal_text(n: u16) -> (text: String)
    ensures
        text@ == decimal_digits(n as nat),
    decreases n,
{
    if n < 10 {
        String::from_str(digit_text(n))
    } else {
        let front = decimal_text(n / 10);
        let last = digit_text(n % 10);
        let text = front.concat(last);
        text
    }
}

} // verus!
