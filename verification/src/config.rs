//! Process-wide configuration, resolved once at startup and passed into
//! constructors as an explicit immutable value.

use vstd::prelude::*;

verus! {

/// The bind address used when none is configured.
pub const DEFAULT_ADDRESS: &'static str = "[::1]:50051";

/// The browser window width used when none is configured or the configured
/// value does not parse.
pub const DEFAULT_WINDOW_WIDTH: u32 = 1980;

/// The browser window height used when none is configured or the
/// configured value does not parse.
pub const DEFAULT_WINDOW_HEIGHT: u32 = 1080;

/// Whether `b` is an ASCII decimal digit.
pub open spec fn is_dec_digit(b: u8) -> bool {
    48 <= b <= 57
}

/// Whether every byte of `s` is an ASCII decimal digit.
pub open spec fn all_dec_digits(s: Seq<u8>) -> bool {
    forall|i: int| 0 <= i < s.len() ==> is_dec_digit(#[trigger] s[i])
}

/// The number the digit string `s` denotes in base ten.
pub open spec fn dec_value(s: Seq<u8>) -> int
    decreases s.len(),
{
    if s.len() == 0 {
        0
    } else {
        dec_value(s.drop_last()) * 10 + (s.last() - 48)
    }
}

/// The digit part of a number string: what follows an optional leading `+`.
pub open spec fn spec_digits(s: Seq<u8>) -> Seq<u8> {
    if s.len() > 0 && s[0] == 43 {
        s.subrange(1, s.len() as int)
    } else {
        s
    }
}

/// What parsing `s` as a `u32` yields: an optional leading `+`, then at
/// least one decimal digit, denoting a value that fits — otherwise nothing.
pub open spec fn spec_parse_u32(s: Seq<u8>) -> Option<u32> {
    let digits = spec_digits(s);
    if digits.len() > 0 && all_dec_digits(digits) && dec_value(digits) <= u32::MAX {
        Some(dec_value(digits) as u32)
    } else {
        None
    }
}

/// A digit string denotes a non-negative number.
proof fn lemma_dec_value_nonneg(s: Seq<u8>)
    requires
        all_dec_digits(s),
    ensures
        dec_value(s) >= 0,
    decreases s.len(),
{
    if s.len() > 0 {
        assert(all_dec_digits(s.drop_last()));
        lemma_dec_value_nonneg(s.drop_last());
    }
}

/// A prefix of a digit string never denotes more than the whole string.
proof fn lemma_dec_value_prefix(s: Seq<u8>, i: int)
    requires
        all_dec_digits(s),
        0 <= i <= s.len(),
    ensures
        dec_value(s.subrange(0, i)) <= dec_value(s),
    decreases s.len() - i,
{
    if i == s.len() {
        assert(s.subrange(0, i) =~= s);
    } else {
        let shorter = s.subrange(0, i);
        let longer = s.subrange(0, i + 1);
        assert(longer.drop_last() =~= shorter);
        assert(all_dec_digits(shorter));
        lemma_dec_value_nonneg(shorter);
        lemma_dec_value_prefix(s, i + 1);
    }
}

/// Parse `s` as a `u32`, falling back to `default` where `s` is not a
/// well-formed in-range decimal number.
pub fn parse_u32_or(s: &[u8], default: u32) -> (r: u32)
    ensures
        r == match spec_parse_u32(s@) {
            Some(v) => v,
            None => default,
        },
{
    let mut start: usize = 0;
    if s.len() > 0 && s[0] == 43u8 {
        start = 1;
    }
    let ghost digits = spec_digits(s@);
    proof {
        assert(digits =~= s@.subrange(start as int, s@.len() as int));
    }
    if start == s.len() {
        return default;
    }
    let mut i: usize = start;
    let mut acc: u64 = 0;
    while i < s.len()
        invariant
            start <= i <= s.len(),
            start < s@.len(),
            start <= 1,
            digits == spec_digits(s@),
            digits == s@.subrange(start as int, s@.len() as int),
            all_dec_digits(digits.subrange(0, i - start)),
            acc == dec_value(digits.subrange(0, i - start)),
            acc <= u32::MAX,
        decreases s.len() - i,
    {
        let b = s[i];
        let ghost prefix = digits.subrange(0, i - start);
        let ghost longer = digits.subrange(0, i + 1 - start);
        proof {
            assert(digits[i - start] == s@[i as int]);
            assert(longer.drop_last() =~= prefix);
        }
        if b < 48u8 || b > 57u8 {
            proof {
                assert(!is_dec_digit(digits[i - start]));
            }
            return default;
        }
        acc = acc * 10 + ((b - 48u8) as u64);
        i = i + 1;
        if acc > u32::MAX as u64 {
            proof {
                if all_dec_digits(digits) {
                    lemma_dec_value_prefix(digits, i - start);
                }
            }
            return default;
        }
    }
    proof {
        assert(digits.subrange(0, i - start) =~= digits);
    }
    acc as u32
}

/// Process-wide configuration: the bind address and the fixed viewport the
/// shared browser process is launched with.
#[derive(Clone, Debug)]
pub struct Config {
    pub address: String,
    pub window_width: u32,
    pub window_height: u32,
}

/// The window dimension a configured value resolves to: the value parsed
/// as a decimal number, or `default` where it is absent or malformed.
pub open spec fn spec_dimension(var: Option<Vec<u8>>, default: u32) -> u32 {
    match var {
        Some(v) => match spec_parse_u32(v@) {
            Some(w) => w,
            None => default,
        },
        None => default,
    }
}

impl Config {
    /// Resolve the configuration from optionally supplied raw values: a
    /// missing address falls back to the default bind address, and a
    /// missing or malformed dimension falls back to the default viewport.
    pub fn resolve(
        address: Option<String>,
        width: Option<Vec<u8>>,
        height: Option<Vec<u8>>,
    ) -> (c: Config)
        ensures
            c.address@ == match address {
                Some(a) => a@,
                None => DEFAULT_ADDRESS@,
            },
            c.window_width == spec_dimension(width, DEFAULT_WINDOW_WIDTH),
            c.window_height == spec_dimension(height, DEFAULT_WINDOW_HEIGHT),
    {
        let resolved_address = match address {
            Some(a) => a,
            None => String::from_str(DEFAULT_ADDRESS),
        };
        let window_width = match width {
            Some(w) => parse_u32_or(w.as_slice(), DEFAULT_WINDOW_WIDTH),
            None => DEFAULT_WINDOW_WIDTH,
        };
        let window_height = match height {
            Some(h) => parse_u32_or(h.as_slice(), DEFAULT_WINDOW_HEIGHT),
            None => DEFAULT_WINDOW_HEIGHT,
        };
        Config { address: resolved_address, window_width, window_height }
    }
}

} // verus!
