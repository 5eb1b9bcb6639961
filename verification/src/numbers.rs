//! Reading decimal numbers from text, as the integer types of std read them:
//! an optional sign, then one or more ASCII digits, and nothing else.

use vstd::prelude::*;

verus! {

/// Whether a character is an ASCII decimal digit.
pub open spec fn is_digit(c: char) -> bool {
    0x30 <= c as u32 <= 0x39
}

/// The value of a digit character.
pub open spec fn digit_value(c: char) -> nat {
    (c as u32 - 0x30) as nat
}

/// The value of a run of digits; nothing if a character is no digit. The
/// empty run has the value zero.
pub open spec fn digits_value(s: Seq<char>) -> Option<nat>
    decreases s.len(),
{
    if s.len() == 0 {
        Some(0nat)
    } else {
        match digits_value(s.drop_last()) {
            Some(v) => if is_digit(s.last()) {
                Some(v * 10 + digit_value(s.last()))
            } else {
                None
            },
            None => None,
        }
    }
}

/// The magnitude that a text without its sign stands for, if it is a
/// non-empty run of digits with a value of at most `limit`.
pub open spec fn magnitude(body: Seq<char>, limit: nat) -> Option<nat> {
    if body.len() == 0 {
        None
    } else {
        match digits_value(body) {
            Some(v) => if v <= limit {
                Some(v)
            } else {
                None
            },
            None => None,
        }
    }
}

/// The text behind a leading plus sign, or all of it.
pub open spec fn unsigned_body(s: Seq<char>) -> Seq<char> {
    if s.len() > 0 && s[0] == '+' {
        s.subrange(1, s.len() as int)
    } else {
        s
    }
}

/// The unsigned number of at most `limit` that a text stands for.
pub open spec fn parsed_unsigned(s: Seq<char>, limit: nat) -> Option<nat> {
    magnitude(unsigned_body(s), limit)
}

/// The 64-bit signed number that a text stands for.
pub open spec fn parsed_i64(s: Seq<char>) -> Option<int> {
    if s.len() > 0 && s[0] == '-' {
        match magnitude(s.subrange(1, s.len() as int), 0x8000_0000_0000_0000) {
            Some(v) => Some(-(v as int)),
            None => None,
        }
    } else {
        match magnitude(unsigned_body(s), 0x7fff_ffff_ffff_ffff) {
            Some(v) => Some(v as int),
            None => None,
        }
    }
}

/// A run of digits has a value, its prefixes have values, and no prefix has
/// a greater value than the whole.
proof fn lemma_prefix_value(s: Seq<char>, k: int)
    requires
        0 <= k <= s.len(),
    ensures
        digits_value(s) matches Some(v) ==> (digits_value(s.subrange(0, k)) matches Some(p) && p
            <= v),
    decreases s.len() - k,
{
    if k < s.len() {
        let shorter = s.drop_last();
        lemma_prefix_value(shorter, k);
        assert(shorter.subrange(0, k) =~= s.subrange(0, k));
        if digits_value(s) is Some {
            let v = digits_value(shorter).unwrap();
            assert(v * 10 + digit_value(s.last()) >= v) by (nonlinear_arith)
                requires
                    v >= 0,
                    digit_value(s.last()) >= 0,
            ;
        }
    } else {
        assert(s.subrange(0, k) =~= s);
    }
}

/// Reads the magnitude that the characters of `s` from `from` on stand for.
fn parse_magnitude(s: &str, from: usize, limit: u64) -> (value: Option<u64>)
    requires
        from <= s@.len(),
    ensures
        match value {
            Some(v) => magnitude(s@.subrange(from as int, s@.len() as int), limit as nat) == Some(
                v as nat,
            ),
            None => magnitude(s@.subrange(from as int, s@.len() as int), limit as nat).is_none(),
        },
{
    let n: usize = s.unicode_len();
    let ghost body = s@.subrange(from as int, n as int);
    if from == n {
        return None;
    }
    let mut acc: u64 = 0;
    let mut i: usize = from;
    while i < n
        invariant
            n == s@.len(),
            from <= i <= n,
            body == s@.subrange(from as int, n as int),
            digits_value(body.subrange(0, i - from)) == Some(acc as nat),
            acc <= limit,
        decreases n - i,
    {
        let c: char = s.get_char(i);
        let u: u32 = c as u32;
        proof {
            let upto = body.subrange(0, i + 1 - from);
            assert(upto.drop_last() =~= body.subrange(0, i - from));
            assert(upto.last() == c);
            lemma_prefix_value(body, i + 1 - from);
        }
        if u < 0x30 || u > 0x39 {
            return None;
        }
        let d: u64 = (u - 0x30) as u64;
        if d > limit || acc > (limit - d) / 10 {
            assert(acc * 10 + d > limit) by (nonlinear_arith)
                requires
                    d > limit || acc > (limit - d) / 10,
                    0 <= d < 10,
                    limit >= 0,
                    acc >= 0,
            ;
            return None;
        }
        assert(acc * 10 + d <= limit) by (nonlinear_arith)
            requires
                acc <= (limit - d) / 10,
                d <= limit,
                acc >= 0,
        ;
        acc = acc * 10 + d;
        i = i + 1;
    }
    assert(body.subrange(0, n - from) =~= body);
    Some(acc)
}

/// Reads an unsigned number of at most `limit`: an optional plus sign and
/// one or more digits.
pub fn parse_unsigned(s: &str, limit: u64) -> (value: Option<u64>)
    ensures
        match value {
            Some(v) => parsed_unsigned(s@, limit as nat) == Some(v as nat),
            None => parsed_unsigned(s@, limit as nat).is_none(),
        },
{
    let n: usize = s.unicode_len();
    if n > 0 && s.get_char(0) == '+' {
        parse_magnitude(s, 1, limit)
    } else {
        assert(s@.subrange(0, n as int) =~= s@);
        parse_magnitude(s, 0, limit)
    }
}

/// Reads a 16-bit unsigned number.
pub fn parse_u16(s: &str) -> (value: Option<u16>)
    ensures
        match value {
            Some(v) => parsed_unsigned(s@, 0xffff) == Some(v as nat),
            None => parsed_unsigned(s@, 0xffff).is_none(),
        },
{
    match parse_unsigned(s, 0xffff) {
        Some(v) => Some(v as u16),
        None => None,
    }
}

/// Reads a 64-bit unsigned number.
pub fn parse_u64(s: &str) -> (value: Option<u64>)
    ensures
        match value {
            Some(v) => parsed_unsigned(s@, 0xffff_ffff_ffff_ffff) == Some(v as nat),
            None => parsed_unsigned(s@, 0xffff_ffff_ffff_ffff).is_none(),
        },
{
    parse_unsigned(s, 0xffff_ffff_ffff_ffff)
}

/// Reads a 64-bit signed number: an optional sign and one or more digits.
pub fn parse_i64(s: &str) -> (value: Option<i64>)
    ensures
        match value {
            Some(v) => parsed_i64(s@) == Some(v as int),
            None => parsed_i64(s@).is_none(),
        },
{
    let n: usize = s.unicode_len();
    if n > 0 && s.get_char(0) == '-' {
        match parse_magnitude(s, 1, 0x8000_0000_0000_0000) {
            Some(v) => if v == 0x8000_0000_0000_0000 {
                Some(i64::MIN)
            } else {
                Some(-(v as i64))
            },
            None => None,
        }
    } else {
        match parse_unsigned(s, 0x7fff_ffff_ffff_ffff) {
            Some(v) => Some(v as i64),
            None => None,
        }
    }
}

} // verus!
