//! Service configuration, built from the raw values of the recognized options.

use vstd::prelude::*;

use crate::text::{trim, trimmed};

verus! {

/// Service configuration.
#[derive(Debug)]
pub struct Settings {
    pub server_host: String,
    pub server_port: u16,
    pub database_url: String,
    /// Whether challenge answers may be exposed for diagnosis; off unless asked for.
    pub debug_captcha: bool,
    /// The secret that signs session tokens.
    pub jwt_secret: String,
    /// How long a session token lives, in seconds.
    pub jwt_expire_seconds: i64,
}

/// Why a configuration was refused.
#[derive(Debug, Clone, Copy, PartialEq, Eq, Structural)]
pub enum ConfigError {
    /// The port is not a decimal number in `0..=65535`.
    BadPort,
    /// No storage connection string was given.
    MissingDatabaseUrl,
    /// No token-signing secret was given.
    MissingJwtSecret,
    /// The token lifetime is not a decimal `i64`.
    BadExpireSeconds,
}

pub open spec fn is_digit(c: char) -> bool {
    '0' <= c && c <= '9'
}

pub open spec fn all_digits(s: Seq<char>) -> bool {
    forall|i: int| 0 <= i < s.len() ==> is_digit(#[trigger] s[i])
}

/// The number that the decimal digits `s` spell.
pub open spec fn digits_value(s: Seq<char>) -> nat
    decreases s.len(),
{
    if s.len() == 0 {
        0
    } else {
        digits_value(s.drop_last()) * 10 + (s.last() as u32 - '0' as u32) as nat
    }
}

/// The magnitude that `s` spells when it is one or more decimal digits.
pub open spec fn magnitude_of(s: Seq<char>) -> Option<nat> {
    if s.len() > 0 && all_digits(s) {
        Some(digits_value(s))
    } else {
        None
    }
}

/// The value of `s` read as an unsigned decimal, with an optional leading `+`.
pub open spec fn unsigned_of(s: Seq<char>) -> Option<nat> {
    if s.len() > 0 && s[0] == '+' {
        magnitude_of(s.drop_first())
    } else {
        magnitude_of(s)
    }
}

/// The value of `s` read as a signed decimal, with an optional leading `+` or `-`.
pub open spec fn signed_of(s: Seq<char>) -> Option<int> {
    if s.len() > 0 && s[0] == '-' {
        match magnitude_of(s.drop_first()) {
            Some(m) => Some(-m),
            None => None,
        }
    } else {
        match unsigned_of(s) {
            Some(m) => Some(m as int),
            None => None,
        }
    }
}

/// Reads the characters of `s` from `start` on as decimal digits, giving their
/// value when there is at least one, all are digits, and the value is at most `bound`.
fn parse_magnitude(s: &str, start: usize, bound: u64) -> (r: Option<u64>)
    requires
        start <= s@.len(),
    ensures
        r == match magnitude_of(s@.subrange(start as int, s@.len() as int)) {
            Some(m) => if m <= bound {
                Some(m as u64)
            } else {
                None
            },
            None => None,
        },
{
    let n = s.unicode_len();
    let ghost t = s@.subrange(start as int, n as int);
    if start == n {
        return None;
    }
    let mut acc: u128 = 0;
    let mut i: usize = start;
    let mut too_big = false;
    while i < n
        invariant
            start <= i <= n,
            n == s@.len(),
            t == s@.subrange(start as int, n as int),
            all_digits(t.subrange(0, i - start)),
            !too_big ==> acc == digits_value(t.subrange(0, i - start)) && acc <= bound,
            too_big ==> digits_value(t.subrange(0, i - start)) > bound,
        decreases n - i,
    {
        let c = s.get_char(i);
        if !('0' <= c && c <= '9') {
            assert(!all_digits(t)) by {
                assert(t[i - start] == c);
            }
            return None;
        }
        let ghost p = t.subrange(0, i - start);
        let ghost q = t.subrange(0, i + 1 - start);
        assert(q.drop_last() =~= p);
        assert(all_digits(q)) by {
            assert forall|k: int| 0 <= k < q.len() implies is_digit(#[trigger] q[k]) by {
                if k < p.len() {
                    assert(q[k] == p[k]);
                }
            }
        }
        if !too_big {
            let d = (c as u32 - '0' as u32) as u128;
            let next = acc * 10 + d;
            if next > bound as u128 {
                too_big = true;
            } else {
                acc = next;
            }
        } else {
            assert(digits_value(q) >= digits_value(p)) by (nonlinear_arith)
                requires digits_value(q) == digits_value(p) * 10 + (q.last() as u32 - '0' as u32) as nat;
        }
        i = i + 1;
    }
    assert(t.subrange(0, n - start) =~= t);
    if too_big {
        None
    } else {
        Some(acc as u64)
    }
}

/// Reads `s` as a `u16` decimal, as `str::parse` does.
pub fn parse_u16(s: &str) -> (r: Option<u16>)
    ensures
        r == match unsigned_of(s@) {
            Some(m) => if m <= u16::MAX {
                Some(m as u16)
            } else {
                None
            },
            None => None,
        },
{
    let n = s.unicode_len();
    let start: usize = if n > 0 && s.get_char(0) == '+' { 1 } else { 0 };
    proof {
        if start == 1 {
            assert(s@.subrange(1, n as int) =~= s@.drop_first());
        } else {
            assert(s@.subrange(0, n as int) =~= s@);
        }
    }
    match parse_magnitude(s, start, u16::MAX as u64) {
        Some(m) => Some(m as u16),
        None => None,
    }
}

/// Reads `s` as an `i64` decimal, as `str::parse` does.
pub fn parse_i64(s: &str) -> (r: Option<i64>)
    ensures
        r == match signed_of(s@) {
            Some(v) => if i64::MIN <= v <= i64::MAX {
                Some(v as i64)
            } else {
                None
            },
            None => None,
        },
{
    let n = s.unicode_len();
    if n > 0 && s.get_char(0) == '-' {
        proof {
            assert(s@.subrange(1, n as int) =~= s@.drop_first());
        }
        match parse_magnitude(s, 1, 0x8000_0000_0000_0000u64) {
            Some(m) => {
                if m == 0x8000_0000_0000_0000u64 {
                    Some(i64::MIN)
                } else {
                    Some(-(m as i64))
                }
            },
            None => None,
        }
    } else {
        let start: usize = if n > 0 && s.get_char(0) == '+' { 1 } else { 0 };
        proof {
            if start == 1 {
                assert(s@.subrange(1, n as int) =~= s@.drop_first());
            } else {
                assert(s@.subrange(0, n as int) =~= s@);
            }
        }
        match parse_magnitude(s, start, i64::MAX as u64) {
            Some(m) => Some(m as i64),
            None => None,
        }
    }
}

/// The Unicode lower-case mapping of `s`.
pub uninterp spec fn lower_of(s: Seq<char>) -> Seq<char>;

/// Relies on `str::to_lowercase`: the result depends on the characters alone.
#[verifier::external_body]
fn lowercase(s: &str) -> (r: String)
    ensures
        r@ == lower_of(s@),
{
    s.to_lowercase()
}

fn same_chars(a: &str, b: &str) -> (r: bool)
    ensures
        r == (a@ == b@),
{
    let n = a.unicode_len();
    if n != b.unicode_len() {
        return false;
    }
    let mut i: usize = 0;
    while i < n
        invariant
            i <= n,
            n == a@.len(),
            n == b@.len(),
            forall|k: int| 0 <= k < i ==> a@[k] == b@[k],
        decreases n - i,
    {
        if a.get_char(i) != b.get_char(i) {
            return false;
        }
        i = i + 1;
    }
    assert(a@ =~= b@);
    true
}

/// Whether the raw value of the diagnostic flag turns it on: `true` in any
/// case, with surrounding whitespace allowed. A missing value leaves it off.
pub open spec fn flag_on(raw: Option<Seq<char>>) -> bool {
    match raw {
        Some(v) => trimmed(lower_of(v)) == "true"@,
        None => false,
    }
}

pub open spec fn opt_view(o: Option<&str>) -> Option<Seq<char>> {
    match o {
        Some(s) => Some(s@),
        None => None,
    }
}

/// Reads the diagnostic flag's raw value.
pub fn parse_flag(raw: Option<&str>) -> (r: bool)
    ensures
        r == flag_on(opt_view(raw)),
{
    match raw {
        Some(v) => {
            let lower = lowercase(v);
            same_chars(trim(lower.as_str()), "true")
        },
        None => false,
    }
}

impl Settings {
    /// Builds the configuration from the raw option values (`None` where an
    /// option is not set): host `127.0.0.1` and port `3000` by default, the
    /// diagnostic flag off, tokens living 604800 seconds; the storage connection
    /// string and the signing secret have no default.
    pub fn from_vars(
        server_host: Option<&str>,
        server_port: Option<&str>,
        database_url: Option<&str>,
        debug_captcha: Option<&str>,
        jwt_secret: Option<&str>,
        jwt_expire_seconds: Option<&str>,
    ) -> (r: Result<Settings, ConfigError>)
        ensures
            r is Ok <==> {
                &&& (server_port matches Some(p) ==> unsigned_of(p@) matches Some(v) && v <= u16::MAX)
                &&& database_url is Some
                &&& jwt_secret is Some
                &&& (jwt_expire_seconds matches Some(e) ==> signed_of(e@) matches Some(v) && i64::MIN <= v <= i64::MAX)
            },
            r matches Err(e) ==> e == if server_port matches Some(p) && !(unsigned_of(p@) matches Some(v) && v <= u16::MAX) {
                ConfigError::BadPort
            } else if database_url is None {
                ConfigError::MissingDatabaseUrl
            } else if jwt_secret is None {
                ConfigError::MissingJwtSecret
            } else {
                ConfigError::BadExpireSeconds
            },
            r matches Ok(c) ==> {
                &&& c.server_host@ == match server_host {
                    Some(h) => h@,
                    None => "127.0.0.1"@,
                }
                &&& c.server_port == match server_port {
                    Some(p) => unsigned_of(p@).unwrap(),
                    None => 3000,
                }
                &&& database_url matches Some(d) && c.database_url@ == d@
                &&& c.debug_captcha == flag_on(opt_view(debug_captcha))
                &&& jwt_secret matches Some(j) && c.jwt_secret@ == j@
                &&& c.jwt_expire_seconds == match jwt_expire_seconds {
                    Some(e) => signed_of(e@).unwrap(),
                    None => 604800,
                }
            },
    {
        let server_host = match server_host {
            Some(h) => h.to_owned(),
            None => String::from_str("127.0.0.1"),
        };
        let server_port = match server_port {
            Some(p) => match parse_u16(p) {
                Some(v) => v,
                None => {
                    return Err(ConfigError::BadPort);
                },
            },
            None => 3000,
        };
        let database_url = match database_url {
            Some(d) => d.to_owned(),
            None => {
                return Err(ConfigError::MissingDatabaseUrl);
            },
        };
        let debug_captcha = parse_flag(debug_captcha);
        let jwt_secret = match jwt_secret {
            Some(j) => j.to_owned(),
            None => {
                return Err(ConfigError::MissingJwtSecret);
            },
        };
        let jwt_expire_seconds = match jwt_expire_seconds {
            Some(e) => match parse_i64(e) {
                Some(v) => v,
                None => {
                    return Err(ConfigError::BadExpireSeconds);
                },
            },
            None => 604800,
        };
        Ok(Settings {
            server_host,
            server_port,
            database_url,
            debug_captcha,
            jwt_secret,
            jwt_expire_seconds,
        })
    }
}

} // verus!
