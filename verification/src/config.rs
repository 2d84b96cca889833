use vstd::prelude::*;

use vstd::arithmetic::div_mod::{lemma_fundamental_div_mod, lemma_mod_bound};

verus! {

/// A decimal digit.
pub open spec fn is_digit(c: char) -> bool {
    48 <= c as int <= 57
}

/// Every character of `s` is a decimal digit.
pub open spec fn all_digits(s: Seq<char>) -> bool {
    forall|i: int| 0 <= i < s.len() ==> is_digit(#[trigger] s[i])
}

/// The number a digit sequence denotes, most significant digit first.
pub open spec fn digits_value(s: Seq<char>) -> int
    decreases s.len(),
{
    if s.len() == 0 {
        0
    } else {
        digits_value(s.drop_last()) * 10 + (s.last() as int - 48)
    }
}

proof fn lemma_digits_value_nonneg(s: Seq<char>)
    requires
        all_digits(s),
    ensures
        0 <= digits_value(s),
    decreases s.len(),
{
    if s.len() > 0 {
        assert(all_digits(s.drop_last())) by {
            assert(forall|i: int| 0 <= i < s.len() - 1 ==> #[trigger] s.drop_last()[i] == s[i]);
        }
        lemma_digits_value_nonneg(s.drop_last());
        assert(is_digit(s.last()));
    }
}

proof fn lemma_digits_value_prefix_le(t: Seq<char>, k: int)
    requires
        all_digits(t),
        0 <= k <= t.len(),
    ensures
        digits_value(t.subrange(0, k)) <= digits_value(t),
    decreases t.len(),
{
    if k == t.len() {
        assert(t.subrange(0, k) =~= t);
    } else {
        let dl = t.drop_last();
        assert(all_digits(dl)) by {
            assert(forall|i: int| 0 <= i < t.len() - 1 ==> #[trigger] dl[i] == t[i]);
        }
        assert(t.subrange(0, k) =~= dl.subrange(0, k));
        lemma_digits_value_prefix_le(dl, k);
        lemma_digits_value_nonneg(dl);
        assert(is_digit(t.last()));
    }
}

/// What parsing a whole string as an unsigned decimal number yields: an
/// optional leading plus sign, then one or more digits denoting a value
/// within `u64` range — the grammar `str::parse::<u64>` accepts.
pub open spec fn spec_parse_u64(s: Seq<char>) -> Option<u64> {
    let digits = if s.len() >= 1 && s[0] == '+' {
        s.subrange(1, s.len() as int)
    } else {
        s
    };
    if digits.len() >= 1 && all_digits(digits) && digits_value(digits) <= u64::MAX {
        Some(digits_value(digits) as u64)
    } else {
        None
    }
}

/// What parsing a whole string as a signed decimal number yields: an
/// optional leading sign, then one or more digits denoting a value within
/// `i64` range — the grammar `str::parse::<i64>` accepts.
pub open spec fn spec_parse_i64(s: Seq<char>) -> Option<i64> {
    if s.len() >= 1 && s[0] == '-' {
        let mag = s.subrange(1, s.len() as int);
        if mag.len() >= 1 && all_digits(mag) && digits_value(mag) <= 0x8000_0000_0000_0000 {
            Some((-digits_value(mag)) as i64)
        } else {
            None
        }
    } else {
        let digits = if s.len() >= 1 && s[0] == '+' {
            s.subrange(1, s.len() as int)
        } else {
            s
        };
        if digits.len() >= 1 && all_digits(digits) && digits_value(digits) <= i64::MAX {
            Some(digits_value(digits) as i64)
        } else {
            None
        }
    }
}

/// `spec_parse_u64`, within the range of a `u16`.
pub open spec fn spec_parse_u16(s: Seq<char>) -> Option<u16> {
    match spec_parse_u64(s) {
        Some(v) => if v <= 0xffff {
            Some(v as u16)
        } else {
            None
        },
        None => None,
    }
}

/// `spec_parse_u64`, within the range of a `u32`.
pub open spec fn spec_parse_u32(s: Seq<char>) -> Option<u32> {
    match spec_parse_u64(s) {
        Some(v) => if v <= 0xffff_ffff {
            Some(v as u32)
        } else {
            None
        },
        None => None,
    }
}

/// Parse the characters of `s` from position `from` to the end as one or
/// more decimal digits denoting a value within `u64` range, rejecting
/// anything else, an over-range value included.
fn parse_u64_digits(s: &str, from: usize) -> (r: Option<u64>)
    requires
        from <= s@.len(),
    ensures
        ({
            let digits = s@.subrange(from as int, s@.len() as int);
            match r {
                Some(v) => digits.len() >= 1 && all_digits(digits) && v as int == digits_value(
                    digits,
                ),
                None => !(digits.len() >= 1 && all_digits(digits) && digits_value(digits)
                    <= u64::MAX),
            }
        }),
{
    let n = s.unicode_len();
    if from == n {
        return None;
    }
    let mut acc: u64 = 0;
    let mut i: usize = from;
    while i < n
        invariant
            from <= i <= n,
            n == s@.len(),
            all_digits(s@.subrange(from as int, i as int)),
            acc as int == digits_value(s@.subrange(from as int, i as int)),
        decreases n - i,
    {
        let c = s.get_char(i);
        let d = c as u32;
        if d < 48 || d > 57 {
            assert(!is_digit(s@.subrange(from as int, n as int)[i - from]));
            return None;
        }
        let dd: u64 = (d - 48) as u64;
        proof {
            let pre = s@.subrange(from as int, i as int);
            let post = s@.subrange(from as int, i as int + 1);
            assert(post.drop_last() =~= pre);
            assert(post.last() == s@[i as int]);
            assert(all_digits(post)) by {
                assert(forall|j: int| 0 <= j < i - from ==> post[j] == pre[j]);
            }
            lemma_fundamental_div_mod(u64::MAX as int - dd as int, 10);
            lemma_mod_bound(u64::MAX as int - dd as int, 10);
        }
        if acc > (u64::MAX - dd) / 10 {
            proof {
                // the digits up to and including this one already denote a
                // value past u64::MAX, and further digits cannot lower it
                let post = s@.subrange(from as int, i as int + 1);
                let digits = s@.subrange(from as int, n as int);
                assert(digits_value(post) > u64::MAX);
                if all_digits(digits) {
                    assert(post =~= digits.subrange(0, i - from + 1));
                    lemma_digits_value_prefix_le(digits, i - from + 1);
                }
            }
            return None;
        }
        acc = acc * 10 + dd;
        i += 1;
    }
    proof {
        assert(s@.subrange(from as int, n as int) =~= s@.subrange(from as int, i as int));
    }
    Some(acc)
}

/// Parse a whole string as an unsigned decimal number, with the grammar of
/// `str::parse::<u64>`.
pub fn parse_u64(s: &str) -> (r: Option<u64>)
    ensures
        r == spec_parse_u64(s@),
{
    let n = s.unicode_len();
    if n == 0 {
        return None;
    }
    if s.get_char(0) == '+' {
        parse_u64_digits(s, 1)
    } else {
        let r = parse_u64_digits(s, 0);
        proof {
            assert(s@.subrange(0, n as int) =~= s@);
        }
        r
    }
}

/// Parse a whole string as a signed decimal number, with the grammar of
/// `str::parse::<i64>`.
pub fn parse_i64(s: &str) -> (r: Option<i64>)
    ensures
        r == spec_parse_i64(s@),
{
    let n = s.unicode_len();
    if n == 0 {
        return None;
    }
    let c0 = s.get_char(0);
    if c0 == '-' {
        match parse_u64_digits(s, 1) {
            None => None,
            Some(v) => {
                if v > 0x8000_0000_0000_0000u64 {
                    None
                } else if v == 0x8000_0000_0000_0000u64 {
                    Some(i64::MIN)
                } else {
                    Some(-(v as i64))
                }
            },
        }
    } else {
        let from: usize = if c0 == '+' {
            1
        } else {
            0
        };
        let r = match parse_u64_digits(s, from) {
            None => None,
            Some(v) => if v > i64::MAX as u64 {
                None
            } else {
                Some(v as i64)
            },
        };
        proof {
            assert(s@.subrange(0, n as int) =~= s@);
        }
        r
    }
}

/// Parse a whole string as a decimal number within `u16` range.
pub fn parse_u16(s: &str) -> (r: Option<u16>)
    ensures
        r == spec_parse_u16(s@),
{
    match parse_u64(s) {
        Some(v) => if v <= 0xffff {
            Some(v as u16)
        } else {
            None
        },
        None => None,
    }
}

/// Parse a whole string as a decimal number within `u32` range.
pub fn parse_u32(s: &str) -> (r: Option<u32>)
    ensures
        r == spec_parse_u32(s@),
{
    match parse_u64(s) {
        Some(v) => if v <= 0xffff_ffff {
            Some(v as u32)
        } else {
            None
        },
        None => None,
    }
}

/// Process-wide configuration, loaded once at startup and immutable for the
/// process lifetime; shared by reference across the core components.
#[derive(Clone, Debug)]
pub struct Config {
    pub database_url: String,
    pub jwt_secret: String,
    pub jwt_expiration: i64,
    pub server_host: String,
    pub server_port: u16,
    pub bcrypt_cost: u32,
}

impl Config {
    /// Build the configuration from raw environment values. The connection
    /// string and the signing secret are required; the token lifetime, bind
    /// host and port, and hashing work factor fall back to their documented
    /// defaults when absent or unparsable.
    pub fn resolve(
        database_url: String,
        jwt_secret: String,
        jwt_expiration: Option<String>,
        server_host: Option<String>,
        server_port: Option<String>,
        bcrypt_cost: Option<String>,
    ) -> (r: Config)
        ensures
            r.database_url == database_url,
            r.jwt_secret == jwt_secret,
            r.jwt_expiration == match jwt_expiration {
                Some(s) => match spec_parse_i64(s@) {
                    Some(v) => v,
                    None => 86400i64,
                },
                None => 86400i64,
            },
            r.server_host@ == match server_host {
                Some(h) => h@,
                None => "127.0.0.1"@,
            },
            r.server_port == match server_port {
                Some(s) => match spec_parse_u16(s@) {
                    Some(v) => v,
                    None => 8080u16,
                },
                None => 8080u16,
            },
            r.bcrypt_cost == match bcrypt_cost {
                Some(s) => match spec_parse_u32(s@) {
                    Some(v) => v,
                    None => 12u32,
                },
                None => 12u32,
            },
    {
        let jwt_expiration_v: i64 = match &jwt_expiration {
            Some(s) => match parse_i64(s.as_str()) {
                Some(v) => v,
                None => 86400,
            },
            None => 86400,
        };
        let server_host_v: String = match server_host {
            Some(h) => h,
            None => String::from_str("127.0.0.1"),
        };
        let server_port_v: u16 = match &server_port {
            Some(s) => match parse_u16(s.as_str()) {
                Some(v) => v,
                None => 8080,
            },
            None => 8080,
        };
        let bcrypt_cost_v: u32 = match &bcrypt_cost {
            Some(s) => match parse_u32(s.as_str()) {
                Some(v) => v,
                None => 12,
            },
            None => 12,
        };
        Config {
            database_url,
            jwt_secret,
            jwt_expiration: jwt_expiration_v,
            server_host: server_host_v,
            server_port: server_port_v,
            bcrypt_cost: bcrypt_cost_v,
        }
    }
}

} // verus!
