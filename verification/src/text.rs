//! Small operations on text that the rest of the library shares.

use vstd::prelude::*;

verus! {

/// The lowercase form of a text, as `str::to_lowercase` of std gives it.
pub uninterp spec fn lowercased(s: Seq<char>) -> Seq<char>;

/// The character for a decimal digit.
pub open spec fn digit_char(d: int) -> char {
    ((d + 48) as u8) as char
}

/// The decimal form of a natural number, without leading zeros.
pub open spec fn decimal_text(n: nat) -> Seq<char>
    decreases n,
{
    if n < 10 {
        seq![digit_char(n as int)]
    } else {
        decimal_text(n / 10).push(digit_char((n % 10) as int))
    }
}

/// The decimal form of an integer, with a minus sign if it is negative.
pub open spec fn signed_decimal_text(i: int) -> Seq<char> {
    if i < 0 {
        seq!['-'] + decimal_text((-i) as nat)
    } else {
        decimal_text(i as nat)
    }
}

/// Index just behind the last dot of `s`, or 0 if it holds none.
pub open spec fn after_last_dot(s: Seq<char>) -> int
    decreases s.len(),
{
    if s.len() == 0 {
        0
    } else if s.last() == '.' {
        s.len() as int
    } else {
        after_last_dot(s.drop_last())
    }
}

/// The part of `s` behind its last dot; all of `s` if it holds none.
pub open spec fn last_dot_part_text(s: Seq<char>) -> Seq<char> {
    s.subrange(after_last_dot(s), s.len() as int)
}

/// The extension that a name shows: the part behind its last dot, and
/// nothing if it holds no dot.
pub open spec fn shown_extension(s: Seq<char>) -> Option<Seq<char>> {
    if s.contains('.') {
        Some(last_dot_part_text(s))
    } else {
        None
    }
}

/// The texts of a list of strings.
pub open spec fn texts(strings: Seq<String>) -> Seq<Seq<char>> {
    Seq::new(strings.len(), |i: int| strings[i]@)
}

/// `s` begins with `prefix`.
pub open spec fn has_prefix(s: Seq<char>, prefix: Seq<char>) -> bool {
    prefix.len() <= s.len() && s.subrange(0, prefix.len() as int) == prefix
}

/// `str::to_lowercase` of std: the lowercase form of the text.
#[verifier::external_body]
pub(crate) fn lowercase(s: &str) -> (lower: String)
    ensures
        lower@ == lowercased(s@),
{
    s.to_lowercase()
}

/// The text of one decimal digit.
fn digit_text(d: u64) -> (text: &'static str)
    requires
        d < 10,
    ensures
        text@ == seq![digit_char(d as int)],
{
    proof {
        reveal_strlit("0");
        reveal_strlit("1");
        reveal_strlit("2");
        reveal_strlit("3");
        reveal_strlit("4");
        reveal_strlit("5");
        reveal_strlit("6");
        reveal_strlit("7");
        reveal_strlit("8");
        reveal_strlit("9");
    }
    let text: &'static str = if d == 0 {
        "0"
    } else if d == 1 {
        "1"
    } else if d == 2 {
        "2"
    } else if d == 3 {
        "3"
    } else if d == 4 {
        "4"
    } else if d == 5 {
        "5"
    } else if d == 6 {
        "6"
    } else if d == 7 {
        "7"
    } else if d == 8 {
        "8"
    } else {
        "9"
    };
    assert(text@ =~= seq![digit_char(d as int)]);
    text
}

/// The decimal digits of a number.
pub fn decimal(n: u64) -> (digits: String)
    ensures
        digits@ == decimal_text(n as nat),
{
    let mut rest: u64 = n / 10;
    let mut digits: String = String::from_str(digit_text(n % 10));
    proof {
        if n >= 10 {
            assert(decimal_text(n as nat) =~= decimal_text(rest as nat) + digits@);
        }
    }
    while rest > 0
        invariant
            if rest > 0 {
                decimal_text(n as nat) == decimal_text(rest as nat) + digits@
            } else {
                decimal_text(n as nat) == digits@
            },
        decreases rest,
    {
        let front: String = String::from_str(digit_text(rest % 10));
        proof {
            if rest >= 10 {
                assert(decimal_text(rest as nat) + digits@ =~= decimal_text((rest / 10) as nat)
                    + (front@ + digits@));
            } else {
                assert(decimal_text(rest as nat) + digits@ =~= front@ + digits@);
            }
        }
        digits = front.concat(digits.as_str());
        rest = rest / 10;
    }
    digits
}

/// The decimal digits of an integer, behind a minus sign if it is negative.
pub fn signed_decimal(i: i64) -> (digits: String)
    ensures
        digits@ == signed_decimal_text(i as int),
{
    if i < 0 {
        let magnitude: u64 = if i == i64::MIN {
            9223372036854775808
        } else {
            (-i) as u64
        };
        proof {
            reveal_strlit("-");
            assert("-"@ =~= seq!['-']);
        }
        String::from_str("-").concat(decimal(magnitude).as_str())
    } else {
        decimal(i as u64)
    }
}

/// Whether two texts are the same, character for character.
pub fn text_equals(a: &str, b: &str) -> (same: bool)
    ensures
        same == (a@ == b@),
{
    let n: usize = a.unicode_len();
    if b.unicode_len() != n {
        return false;
    }
    let mut i: usize = 0;
    while i < n
        invariant
            n == a@.len(),
            n == b@.len(),
            i <= n,
            forall|k: int| 0 <= k < i ==> a@[k] == b@[k],
        decreases n - i,
    {
        if a.get_char(i) != b.get_char(i) {
            return false;
        }
        i = i + 1;
    }
    assert(a@ =~= b@);
    true
}

/// Whether `s` begins with `prefix`.
pub fn starts_with(s: &str, prefix: &str) -> (found: bool)
    ensures
        found == has_prefix(s@, prefix@),
{
    let n: usize = prefix.unicode_len();
    if s.unicode_len() < n {
        return false;
    }
    let mut i: usize = 0;
    while i < n
        invariant
            n == prefix@.len(),
            n <= s@.len(),
            i <= n,
            forall|k: int| 0 <= k < i ==> s@[k] == prefix@[k],
        decreases n - i,
    {
        if s.get_char(i) != prefix.get_char(i) {
            assert(s@.subrange(0, n as int)[i as int] == s@[i as int]);
            return false;
        }
        i = i + 1;
    }
    assert(s@.subrange(0, n as int) =~= prefix@);
    true
}

/// Dropping a last character that is no dot does not move the last dot.
proof fn lemma_after_last_dot_prefix(s: Seq<char>, k: int)
    requires
        0 <= k <= s.len(),
        forall|j: int| k <= j < s.len() ==> s[j] != '.',
    ensures
        after_last_dot(s) == after_last_dot(s.subrange(0, k)),
    decreases s.len() - k,
{
    if k < s.len() {
        let shorter = s.drop_last();
        assert(s.last() != '.');
        assert(shorter.subrange(0, k) =~= s.subrange(0, k));
        lemma_after_last_dot_prefix(shorter, k);
    } else {
        assert(s.subrange(0, k) =~= s);
    }
}

/// The index behind the last dot lies within the text, and it is 0 exactly
/// if the text holds no dot.
pub proof fn lemma_after_last_dot_bounds(s: Seq<char>)
    ensures
        0 <= after_last_dot(s) <= s.len(),
        after_last_dot(s) == 0 <==> !s.contains('.'),
        after_last_dot(s) > 0 ==> s[after_last_dot(s) - 1] == '.',
    decreases s.len(),
{
    if s.len() > 0 {
        let shorter = s.drop_last();
        lemma_after_last_dot_bounds(shorter);
        if s.last() == '.' {
            assert(s[s.len() - 1] == '.');
        } else {
            if shorter.contains('.') {
                let i = choose|i: int| 0 <= i < shorter.len() && shorter[i] == '.';
                assert(s[i] == '.');
            }
            if s.contains('.') {
                let i = choose|i: int| 0 <= i < s.len() && s[i] == '.';
                assert(shorter[i] == '.');
            }
            if after_last_dot(s) > 0 {
                assert(shorter[after_last_dot(s) - 1] == s[after_last_dot(s) - 1]);
            }
        }
    }
}

/// Finds the index just behind the last dot of `s`, or 0 if it holds none.
fn index_after_last_dot(s: &str) -> (start: usize)
    ensures
        start == after_last_dot(s@),
        start <= s@.len(),
{
    let n: usize = s.unicode_len();
    let mut start: usize = n;
    while start > 0 && s.get_char(start - 1) != '.'
        invariant
            n == s@.len(),
            start <= n,
            forall|j: int| start <= j < n ==> s@[j] != '.',
        decreases start,
    {
        start = start - 1;
    }
    proof {
        lemma_after_last_dot_prefix(s@, start as int);
        let head = s@.subrange(0, start as int);
        if start > 0 {
            assert(head.last() == s@[start - 1]);
        }
        assert(after_last_dot(head) == start);
    }
    start
}

/// The part of `s` behind its last dot; all of `s` if it holds none.
pub fn last_dot_part<'a>(s: &'a str) -> (part: &'a str)
    ensures
        part@ == last_dot_part_text(s@),
{
    let start: usize = index_after_last_dot(s);
    s.substring_char(start, s.unicode_len())
}

/// The extension that a name shows: the part behind its last dot, and
/// nothing if it holds no dot.
pub fn extension_of<'a>(s: &'a str) -> (extension: Option<&'a str>)
    ensures
        match extension {
            Some(e) => shown_extension(s@) == Some(e@),
            None => shown_extension(s@).is_none(),
        },
{
    let start: usize = index_after_last_dot(s);
    proof {
        lemma_after_last_dot_bounds(s@);
    }
    if start == 0 {
        None
    } else {
        Some(s.substring_char(start, s.unicode_len()))
    }
}

} // verus!
