//! The process configuration: made once from the settings the process was
//! started with, and read-only afterwards. A missing or malformed setting is
//! named, so that startup can stop on it.

use vstd::prelude::*;
use vstd::string::*;
use vstd::utf8::encode_utf8;
use crate::claims::TokenConfig;

verus! {

/// What can be wrong with the settings.
#[derive(Clone, Copy, Debug, PartialEq, Eq, Structural)]
pub enum ConfigError {
    MissingSecret,
    MissingAudience,
    MissingIssuer,
    MissingLifetime,
    BadLifetime,
    MissingSalt,
    BadSalt,
}

/// What startup says of a faulty setting.
pub open spec fn fault_text(error: ConfigError) -> Seq<char> {
    match error {
        ConfigError::MissingSecret => "Missing JWT_SECRET environment variable"@,
        ConfigError::MissingAudience => "Missing JWT_AUDIENCE environment variable"@,
        ConfigError::MissingIssuer => "Missing JWT_ISSUER environment variable"@,
        ConfigError::MissingLifetime => "Missing AUTH_TOKEN_EXPIRY environment variable"@,
        ConfigError::BadLifetime => "Cannot parse AUTH_TOKEN_EXPIRY as u64"@,
        ConfigError::MissingSalt => "Missing PASSWORD_SALT environment variable"@,
        ConfigError::BadSalt => "PASSWORD_SALT is not 16 characters long"@,
    }
}

impl ConfigError {
    /// What startup says of this fault.
    pub fn message(&self) -> (r: String)
        ensures
            r@ == fault_text(*self),
    {
        match self {
            ConfigError::MissingSecret => String::from_str("Missing JWT_SECRET environment variable"),
            ConfigError::MissingAudience => String::from_str(
                "Missing JWT_AUDIENCE environment variable",
            ),
            ConfigError::MissingIssuer => String::from_str("Missing JWT_ISSUER environment variable"),
            ConfigError::MissingLifetime => String::from_str(
                "Missing AUTH_TOKEN_EXPIRY environment variable",
            ),
            ConfigError::BadLifetime => String::from_str("Cannot parse AUTH_TOKEN_EXPIRY as u64"),
            ConfigError::MissingSalt => String::from_str("Missing PASSWORD_SALT environment variable"),
            ConfigError::BadSalt => String::from_str("PASSWORD_SALT is not 16 characters long"),
        }
    }
}

/// The value of a decimal digit.
pub open spec fn digit_value(c: char) -> Option<u64> {
    if '0' <= c && c <= '9' {
        Some((c as u64 - '0' as u64) as u64)
    } else {
        None
    }
}

/// Whether every character is a decimal digit.
pub open spec fn all_digits(s: Seq<char>) -> bool {
    forall|i: int| 0 <= i < s.len() ==> (#[trigger] digit_value(s[i])) is Some
}

/// The number that a run of decimal digits writes; a character that is no
/// digit counts as zero.
pub open spec fn decimal_value(s: Seq<char>) -> nat
    decreases s.len(),
{
    if s.len() == 0 {
        0
    } else {
        decimal_value(s.drop_last()) * 10 + (match digit_value(s.last()) {
            Some(d) => d as nat,
            None => 0,
        })
    }
}

/// The digits of a number text: the text without a leading plus sign.
pub open spec fn unsigned_part(text: Seq<char>) -> Seq<char> {
    if text.len() > 0 && text[0] == '+' {
        text.drop_first()
    } else {
        text
    }
}

/// The number of seconds that a text writes: decimal digits, at least one,
/// after an optional plus sign, with a value that fits 64 bits.
pub open spec fn seconds_of(text: Seq<char>) -> Option<u64> {
    let digits = unsigned_part(text);
    if digits.len() > 0 && all_digits(digits) && decimal_value(digits) <= u64::MAX {
        Some(decimal_value(digits) as u64)
    } else {
        None
    }
}

/// A run of digits writes at least what any of its beginnings writes.
pub proof fn lemma_decimal_prefix(s: Seq<char>, k: int)
    requires
        0 <= k <= s.len(),
    ensures
        decimal_value(s.take(k)) <= decimal_value(s),
    decreases s.len() - k,
{
    if k == s.len() {
        assert(s.take(k) =~= s);
    } else {
        assert(s.take(k + 1).drop_last() =~= s.take(k));
        lemma_decimal_prefix(s, k + 1);
    }
}

fn digit_of(c: char) -> (r: Option<u64>)
    ensures
        r == digit_value(c),
{
    if c == '0' {
        Some(0)
    } else if c == '1' {
        Some(1)
    } else if c == '2' {
        Some(2)
    } else if c == '3' {
        Some(3)
    } else if c == '4' {
        Some(4)
    } else if c == '5' {
        Some(5)
    } else if c == '6' {
        Some(6)
    } else if c == '7' {
        Some(7)
    } else if c == '8' {
        Some(8)
    } else if c == '9' {
        Some(9)
    } else {
        None
    }
}

/// Reads a token lifetime in seconds.
pub fn parse_seconds(text: &str) -> (r: Option<u64>)
    ensures
        r == seconds_of(text@),
{
    let n: usize = text.unicode_len();
    let mut i: usize = 0;
    if n > 0 && text.get_char(0) == '+' {
        i = 1;
    }
    let start: usize = i;
    let ghost digits = unsigned_part(text@);
    proof {
        assert(digits =~= text@.subrange(start as int, n as int));
    }
    if i == n {
        return None;
    }
    let mut acc: u64 = 0;
    while i < n
        invariant
            start <= i <= n,
            n == text@.len(),
            digits == unsigned_part(text@),
            digits == text@.subrange(start as int, n as int),
            all_digits(digits.take(i - start)),
            acc == decimal_value(digits.take(i - start)),
        decreases n - i,
    {
        let c = text.get_char(i);
        proof {
            assert(digits[i - start] == c);
            assert(digits.take(i + 1 - start).drop_last() =~= digits.take(i - start));
            assert(digits.take(i + 1 - start).last() == c);
            lemma_decimal_prefix(digits, i + 1 - start);
        }
        let d: u64 = match digit_of(c) {
            Some(d) => d,
            None => {
                proof {
                    assert(digit_value(digits[i - start]) is None);
                }
                return None;
            },
        };
        proof {
            assert(decimal_value(digits.take(i + 1 - start)) == acc * 10 + d);
        }
        let shifted: u64 = match acc.checked_mul(10) {
            Some(v) => v,
            None => {
                return None;
            },
        };
        let next: u64 = match shifted.checked_add(d) {
            Some(v) => v,
            None => {
                return None;
            },
        };
        proof {
            assert forall|j: int| 0 <= j < digits.take(i + 1 - start).len() implies (#[trigger] digit_value(
                digits.take(i + 1 - start)[j],
            )) is Some by {
                if j < i - start {
                    assert(digits.take(i + 1 - start)[j] == digits.take(i - start)[j]);
                }
            }
        }
        acc = next;
        i += 1;
    }
    proof {
        assert(digits.take(n - start) =~= digits);
    }
    Some(acc)
}

/// What is wrong with the settings of the token codec, if anything; the
/// secret is looked at first, then the audience, the issuer and the lifetime.
pub open spec fn settings_fault(
    secret: Option<String>,
    audience: Option<String>,
    issuer: Option<String>,
    lifetime: Option<String>,
) -> Option<ConfigError> {
    if secret is None {
        Some(ConfigError::MissingSecret)
    } else if audience is None {
        Some(ConfigError::MissingAudience)
    } else if issuer is None {
        Some(ConfigError::MissingIssuer)
    } else if lifetime is None {
        Some(ConfigError::MissingLifetime)
    } else if seconds_of(lifetime->0@) is None {
        Some(ConfigError::BadLifetime)
    } else {
        None
    }
}

impl TokenConfig {
    /// The codec's configuration from the four settings: each must be there,
    /// and the lifetime must be a number of seconds.
    pub fn from_settings(
        secret: Option<String>,
        audience: Option<String>,
        issuer: Option<String>,
        lifetime: Option<String>,
    ) -> (r: Result<Self, ConfigError>)
        ensures
            match settings_fault(secret, audience, issuer, lifetime) {
                Some(fault) => r == Err::<Self, ConfigError>(fault),
                None => r matches Ok(c) && c.secret@ == encode_utf8(secret->0@) && c.audience@
                    == audience->0@ && c.issuer@ == issuer->0@ && Some(c.lifetime) == seconds_of(
                    lifetime->0@,
                ),
            },
    {
        let secret = match secret {
            Some(s) => s,
            None => {
                return Err(ConfigError::MissingSecret);
            },
        };
        let audience = match audience {
            Some(s) => s,
            None => {
                return Err(ConfigError::MissingAudience);
            },
        };
        let issuer = match issuer {
            Some(s) => s,
            None => {
                return Err(ConfigError::MissingIssuer);
            },
        };
        let lifetime = match lifetime {
            Some(s) => s,
            None => {
                return Err(ConfigError::MissingLifetime);
            },
        };
        match parse_seconds(lifetime.as_str()) {
            None => Err(ConfigError::BadLifetime),
            Some(seconds) => Ok(
                TokenConfig {
                    secret: secret.as_str().as_bytes_vec(),
                    issuer,
                    audience,
                    lifetime: seconds,
                },
            ),
        }
    }
}

/// The password salt from its setting: exactly sixteen bytes.
pub fn password_salt(text: Option<String>) -> (r: Result<[u8; 16], ConfigError>)
    ensures
        text is None ==> r == Err::<[u8; 16], ConfigError>(ConfigError::MissingSalt),
        text is Some && encode_utf8(text->0@).len() != 16 ==> r == Err::<[u8; 16], ConfigError>(
            ConfigError::BadSalt,
        ),
        text is Some && encode_utf8(text->0@).len() == 16 ==> (r matches Ok(salt) && salt@
            == encode_utf8(text->0@)),
{
    let text = match text {
        Some(t) => t,
        None => {
            return Err(ConfigError::MissingSalt);
        },
    };
    let bytes = text.as_str().as_bytes();
    if bytes.len() != 16 {
        return Err(ConfigError::BadSalt);
    }
    let mut salt: [u8; 16] = [0u8; 16];
    let mut i: usize = 0;
    while i < 16
        invariant
            i <= 16,
            bytes@.len() == 16,
            forall|j: int| 0 <= j < i ==> salt@[j] == bytes@[j],
        decreases 16 - i,
    {
        salt.set(i, bytes[i]);
        i += 1;
    }
    proof {
        assert(salt@ =~= bytes@);
    }
    Ok(salt)
}

} // verus!
