use vstd::prelude::*;

verus! {

/// The pool capacity used when none (or no valid one) is configured.
pub const DEFAULT_POOL_CAPACITY: usize = 10;

pub const DEFAULT_PORT: u16 = 5432;

/// Where the durable store is reached.
pub struct PgSettings {
    pub host: String,
    pub port: u16,
    pub user: String,
    pub dbname: String,
}

/// A configuration value that cannot be used.
#[derive(Clone, Copy, Debug, PartialEq, Eq, Structural)]
pub enum ConfigError {
    /// The port is not a decimal number from 0 to 65535.
    InvalidPort,
}

pub open spec fn is_digit(c: char) -> bool {
    '0' <= c && c <= '9'
}

/// The number that a string of decimal digits writes.
pub open spec fn digits_value(s: Seq<char>) -> int
    decreases s.len(),
{
    if s.len() == 0 {
        0
    } else {
        digits_value(s.drop_last()) * 10 + (s.last() as int - '0' as int)
    }
}

/// The digits of a number's text: without one leading `+`, if there is one.
pub open spec fn number_body(s: Seq<char>) -> Seq<char> {
    if s.len() > 0 && s[0] == '+' {
        s.drop_first()
    } else {
        s
    }
}

/// The unsigned number that a text writes, where it is at most `max`: one or more decimal
/// digits, optionally after a `+`.
pub open spec fn parse_unsigned(s: Seq<char>, max: int) -> Option<int> {
    let b = number_body(s);
    if b.len() > 0 && (forall|i: int| 0 <= i < b.len() ==> is_digit(#[trigger] b[i]))
        && digits_value(b) <= max {
        Some(digits_value(b))
    } else {
        None
    }
}

pub open spec fn min(a: int, b: int) -> int {
    if a <= b {
        a
    } else {
        b
    }
}

proof fn lemma_saturating_step(v: int, d: int, max: int)
    requires
        v >= 0,
        0 <= d <= 9,
        max >= 0,
    ensures
        min(min(v, max + 1) * 10 + d, max + 1) == min(v * 10 + d, max + 1),
{
    if v > max + 1 {
        assert((max + 1) * 10 + d >= max + 1) by (nonlinear_arith)
            requires
                max >= 0,
                d >= 0,
        ;
        assert(v * 10 + d >= max + 1) by (nonlinear_arith)
            requires
                v > max + 1,
                max >= 0,
                d >= 0,
        ;
    }
}

/// Reads an unsigned decimal number no larger than `max`.
fn parse_unsigned_exec(s: &str, max: u64) -> (r: Option<u64>)
    ensures
        match parse_unsigned(s@, max as int) {
            Some(v) => r is Some && r->0 as int == v,
            None => r is None,
        },
        r is Some ==> r->0 <= max,
{
    let len = s.unicode_len();
    let start: usize = if len > 0 && s.get_char(0) == '+' {
        1
    } else {
        0
    };
    let ghost b = number_body(s@);
    assert(b =~= s@.subrange(start as int, len as int));
    if start >= len {
        return None;
    }
    let mut v: u128 = 0;
    let mut i: usize = start;
    while i < len
        invariant
            start <= i <= len,
            len == s@.len(),
            b =~= s@.subrange(start as int, len as int),
            b == number_body(s@),
            forall|k: int| 0 <= k < i - start ==> is_digit(#[trigger] b[k]),
            v == min(digits_value(b.subrange(0, i - start)), max as int + 1),
        decreases len - i,
    {
        let c = s.get_char(i);
        if !('0' <= c && c <= '9') {
            assert(b[i - start] == c);
            assert(!is_digit(b[i - start]));
            return None;
        }
        let d = (c as u32 - '0' as u32) as u128;
        let ghost p = b.subrange(0, i - start);
        let ghost q = b.subrange(0, i + 1 - start);
        assert(q.drop_last() =~= p);
        proof {
            assert(digits_value(p) >= 0) by {
                lemma_digits_value_nonneg(p);
            }
            lemma_saturating_step(digits_value(p), d as int, max as int);
        }
        let w = v * 10 + d;
        v = if w > max as u128 + 1 {
            max as u128 + 1
        } else {
            w
        };
        i = i + 1;
    }
    assert(b.subrange(0, len - start) =~= b);
    if v > max as u128 {
        None
    } else {
        Some(v as u64)
    }
}

proof fn lemma_digits_value_nonneg(s: Seq<char>)
    requires
        forall|i: int| 0 <= i < s.len() ==> is_digit(#[trigger] s[i]),
    ensures
        digits_value(s) >= 0,
    decreases s.len(),
{
    if s.len() > 0 {
        assert forall|i: int| 0 <= i < s.drop_last().len() implies is_digit(
            #[trigger] s.drop_last()[i],
        ) by {
            assert(s.drop_last()[i] == s[i]);
        }
        lemma_digits_value_nonneg(s.drop_last());
        assert(is_digit(s[s.len() - 1]));
    }
}

/// The store settings from the configured values, each of which may be missing: host
/// `localhost`, port 5432, user `postgres` and database `bot` stand in for missing ones.
/// A port that is given must be a decimal number that fits in 16 bits.
pub fn config_from_values(
    host: Option<String>,
    port: Option<String>,
    user: Option<String>,
    dbname: Option<String>,
) -> (r: Result<PgSettings, ConfigError>)
    ensures
        match port {
            Some(p) => match parse_unsigned(p@, 0xffff) {
                Some(v) => r is Ok && r->Ok_0.port as int == v,
                None => r == Err::<PgSettings, ConfigError>(ConfigError::InvalidPort),
            },
            None => r is Ok && r->Ok_0.port == DEFAULT_PORT,
        },
        r is Ok ==> r->Ok_0.host@ == (match host {
            Some(h) => h@,
            None => "localhost"@,
        }),
        r is Ok ==> r->Ok_0.user@ == (match user {
            Some(u) => u@,
            None => "postgres"@,
        }),
        r is Ok ==> r->Ok_0.dbname@ == (match dbname {
            Some(d) => d@,
            None => "bot"@,
        }),
{
    let port = match port {
        Some(p) => match parse_unsigned_exec(p.as_str(), 0xffff) {
            Some(v) => v as u16,
            None => {
                return Err(ConfigError::InvalidPort);
            },
        },
        None => DEFAULT_PORT,
    };
    let host = match host {
        Some(h) => h,
        None => String::from_str("localhost"),
    };
    let user = match user {
        Some(u) => u,
        None => String::from_str("postgres"),
    };
    let dbname = match dbname {
        Some(d) => d,
        None => String::from_str("bot"),
    };
    Ok(PgSettings { host, port, user, dbname })
}

/// The pool capacity from the configured value: the number it writes, or the default
/// where it is missing or not a number that fits in `usize`.
pub fn capacity_from_value(raw: Option<String>) -> (r: usize)
    ensures
        r as int == match raw {
            Some(t) => match parse_unsigned(t@, usize::MAX as int) {
                Some(v) => v,
                None => DEFAULT_POOL_CAPACITY as int,
            },
            None => DEFAULT_POOL_CAPACITY as int,
        },
{
    match raw {
        Some(t) => match parse_unsigned_exec(t.as_str(), usize::MAX as u64) {
            Some(v) => v as usize,
            None => DEFAULT_POOL_CAPACITY,
        },
        None => DEFAULT_POOL_CAPACITY,
    }
}

} // verus!
