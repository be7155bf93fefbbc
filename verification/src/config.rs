//! Process configuration as plain values.
//!
//! The values are read from the environment once at startup, outside the
//! library; resolving them — filling documented defaults and parsing the
//! port number — is decided here.

use vstd::prelude::*;

use crate::error::LikesError;

verus! {

/// The character is a decimal digit.
pub open spec fn is_digit(c: char) -> bool {
    0x30 <= c as int <= 0x39
}

/// The number the digit string denotes, most significant digit first.
pub open spec fn digits_val(s: Seq<char>) -> int
    decreases s.len(),
{
    if s.len() == 0 {
        0
    } else {
        digits_val(s.drop_last()) * 10 + (s.last() as int - 0x30)
    }
}

/// A digit string denotes a non-negative number.
proof fn lemma_digits_val_nonneg(s: Seq<char>)
    requires
        forall|i: int| 0 <= i < s.len() ==> is_digit(#[trigger] s[i]),
    ensures
        digits_val(s) >= 0,
    decreases s.len(),
{
    if s.len() > 0 {
        let head = s.drop_last();
        assert(forall|i: int| 0 <= i < head.len() ==> #[trigger] head[i] == s[i]);
        lemma_digits_val_nonneg(head);
    }
}

/// Appending digits never shrinks the denoted number.
proof fn lemma_digits_val_prefix_le(s: Seq<char>, k: int)
    requires
        0 <= k <= s.len(),
        forall|i: int| 0 <= i < s.len() ==> is_digit(#[trigger] s[i]),
    ensures
        digits_val(s.subrange(0, k)) <= digits_val(s),
    decreases s.len() - k,
{
    if k < s.len() {
        let p = s.subrange(0, k);
        let q = s.subrange(0, k + 1);
        assert(q.drop_last() =~= p);
        assert(forall|i: int| 0 <= i < p.len() ==> #[trigger] p[i] == s[i]);
        lemma_digits_val_nonneg(p);
        assert(digits_val(q) == digits_val(p) * 10 + (s[k] as int - 0x30));
        assert(digits_val(p) * 10 >= digits_val(p)) by (nonlinear_arith)
            requires
                digits_val(p) >= 0,
        ;
        lemma_digits_val_prefix_le(s, k + 1);
    } else {
        assert(s.subrange(0, k) =~= s);
    }
}

/// Parses a port number: the whole string must be decimal digits and the
/// value must fit. Returns `None` on an empty string, a non-digit, or a
/// value above `u16::MAX`.
pub fn parse_port(s: &str) -> (r: Option<u16>)
    ensures
        r is Some <==> (s@.len() > 0 && (forall|i: int|
            0 <= i < s@.len() ==> is_digit(#[trigger] s@[i])) && digits_val(s@) <= u16::MAX),
        r matches Some(v) ==> v == digits_val(s@),
{
    let n = s.unicode_len();
    if n == 0 {
        return None;
    }
    let mut acc: u32 = 0;
    let mut i: usize = 0;
    while i < n
        invariant
            0 < n == s@.len(),
            i <= n,
            forall|j: int| 0 <= j < i ==> is_digit(#[trigger] s@[j]),
            acc == digits_val(s@.subrange(0, i as int)),
            acc <= 0xffff,
        decreases n - i,
    {
        let c = s.get_char(i);
        let code = c as u32;
        if code < 0x30 || code > 0x39 {
            return None;
        }
        let d = code - 0x30;
        let next = acc * 10 + d;
        proof {
            assert(s@.subrange(0, i + 1).drop_last() =~= s@.subrange(0, i as int));
        }
        if next > 0xffff {
            proof {
                if forall|j: int| 0 <= j < s@.len() ==> is_digit(#[trigger] s@[j]) {
                    lemma_digits_val_prefix_le(s@, i + 1);
                }
            }
            return None;
        }
        acc = next;
        i = i + 1;
    }
    proof {
        assert(s@.subrange(0, n as int) =~= s@);
    }
    Some(acc as u16)
}

/// What the process needs to run: where to listen, how to reach storage,
/// and where the two collaborator services live.
#[derive(Debug)]
pub struct Config {
    pub host: String,
    pub port: u16,
    pub database_url: String,
    pub environment: String,
    pub log_level: String,
    pub user_service_url: String,
    pub post_service_url: String,
}

/// The value read from the environment, or the documented default.
pub open spec fn or_default(given: Option<String>, default: Seq<char>) -> Seq<char> {
    match given {
        Some(v) => v@,
        None => default,
    }
}

fn unwrap_or(given: Option<String>, default: &str) -> (r: String)
    ensures
        r@ == or_default(given, default@),
{
    match given {
        Some(v) => v,
        None => default.to_owned(),
    }
}

impl Config {
    /// Resolves the configuration from what the environment supplied:
    /// every missing value falls back to its documented default, and a
    /// supplied port that is not a number within range is rejected.
    pub fn resolve(
        host: Option<String>,
        port: Option<String>,
        database_url: Option<String>,
        environment: Option<String>,
        log_level: Option<String>,
        user_service_url: Option<String>,
        post_service_url: Option<String>,
    ) -> (r: Result<Config, LikesError>)
        ensures
            ({
                let port_digits = or_default(port, "50053"@);
                let ok = port_digits.len() > 0 && (forall|i: int|
                    0 <= i < port_digits.len() ==> is_digit(#[trigger] port_digits[i]))
                    && digits_val(port_digits) <= u16::MAX;
                &&& ok <==> r is Ok
                &&& (r matches Ok(c) ==> {
                    &&& c.host@ == or_default(host, "0.0.0.0"@)
                    &&& c.port == digits_val(port_digits)
                    &&& c.database_url@ == or_default(database_url, "rocksdb://./data/likes.db"@)
                    &&& c.environment@ == or_default(environment, "development"@)
                    &&& c.log_level@ == or_default(log_level, "debug"@)
                    &&& c.user_service_url@ == or_default(
                        user_service_url,
                        "http://localhost:50051"@,
                    )
                    &&& c.post_service_url@ == or_default(
                        post_service_url,
                        "http://localhost:50052"@,
                    )
                })
                &&& (!ok ==> (r matches Err(LikesError::InvalidInput(m)) && m@
                    == "PORT must be a number between 0 and 65535"@))
            }),
    {
        let port_text = unwrap_or(port, "50053");
        let port_num = match parse_port(port_text.as_str()) {
            Some(p) => p,
            None => {
                return Err(
                    LikesError::InvalidInput(
                        "PORT must be a number between 0 and 65535".to_owned(),
                    ),
                );
            },
        };

        Ok(
            Config {
                host: unwrap_or(host, "0.0.0.0"),
                port: port_num,
                database_url: unwrap_or(database_url, "rocksdb://./data/likes.db"),
                environment: unwrap_or(environment, "development"),
                log_level: unwrap_or(log_level, "debug"),
                user_service_url: unwrap_or(user_service_url, "http://localhost:50051"),
                post_service_url: unwrap_or(post_service_url, "http://localhost:50052"),
            },
        )
    }
}

} // verus!
