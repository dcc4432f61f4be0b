//! Verified string utilities: exact and case-insensitive equality, ASCII
//! whitespace scanning, and base-ten number parsing.
use vstd::prelude::*;

verus! {

/// The ASCII lower-case form of one character; characters outside `A`..`Z`
/// are unchanged.
pub open spec fn lower_char(c: char) -> char {
    if 'A' <= c && c <= 'Z' {
        ((c as int) + 32) as char
    } else {
        c
    }
}

/// The ASCII lower-case form of a string of characters.
pub open spec fn lower_seq(s: Seq<char>) -> Seq<char> {
    s.map_values(|c: char| lower_char(c))
}

/// The ASCII lower-case form of one character.
pub fn to_lower_char(c: char) -> (r: char)
    ensures
        r == lower_char(c),
{
    if 'A' <= c && c <= 'Z' {
        ((c as u8) + 32) as char
    } else {
        c
    }
}

/// Whether two strings hold the same characters.
pub fn str_eq(s: &str, t: &str) -> (r: bool)
    ensures
        r == (s@ == t@),
{
    let sl = s.unicode_len();
    let tl = t.unicode_len();
    if sl != tl {
        return false;
    }
    let mut i: usize = 0;
    while i < sl
        invariant
            sl == s@.len(),
            sl == t@.len(),
            i <= sl,
            forall|j: int| 0 <= j < i ==> s@[j] == t@[j],
        decreases sl - i,
    {
        if s.get_char(i) != t.get_char(i) {
            return false;
        }
        i = i + 1;
    }
    proof {
        assert(s@ =~= t@);
    }
    true
}

/// Whether two strings are equal after ASCII lower-casing, character by
/// character.
pub fn str_eq_ignore_case(s: &str, t: &str) -> (r: bool)
    ensures
        r == (lower_seq(s@) == lower_seq(t@)),
{
    let sl = s.unicode_len();
    let tl = t.unicode_len();
    if sl != tl {
        proof {
            assert(lower_seq(s@).len() == s@.len());
            assert(lower_seq(t@).len() == t@.len());
        }
        return false;
    }
    let mut i: usize = 0;
    while i < sl
        invariant
            sl == s@.len(),
            sl == t@.len(),
            i <= sl,
            forall|j: int| 0 <= j < i ==> lower_char(s@[j]) == lower_char(t@[j]),
        decreases sl - i,
    {
        let cs = to_lower_char(s.get_char(i));
        let ct = to_lower_char(t.get_char(i));
        if cs != ct {
            proof {
                assert(lower_seq(s@)[i as int] != lower_seq(t@)[i as int]);
            }
            return false;
        }
        i = i + 1;
    }
    proof {
        assert(lower_seq(s@) =~= lower_seq(t@));
    }
    true
}

/// ASCII whitespace: space, tab, line feed, form feed, carriage return.
pub open spec fn is_ascii_ws(c: char) -> bool {
    c == ' ' || c == '\t' || c == '\n' || c == '\x0C' || c == '\r'
}

/// The first position at or after `from` holding a character that is not
/// ASCII whitespace; the length when there is none.
pub open spec fn skip_ws_from(s: Seq<char>, from: int) -> int
    decreases s.len() - from,
{
    if from < 0 || from >= s.len() {
        s.len() as int
    } else if is_ascii_ws(s[from]) {
        skip_ws_from(s, from + 1)
    } else {
        from
    }
}

/// The first position at or after `from` holding ASCII whitespace; the
/// length when there is none.
pub open spec fn token_end_from(s: Seq<char>, from: int) -> int
    decreases s.len() - from,
{
    if from < 0 || from >= s.len() {
        s.len() as int
    } else if !is_ascii_ws(s[from]) {
        token_end_from(s, from + 1)
    } else {
        from
    }
}

/// Both scans stay within the string and do not move backwards.
pub proof fn lemma_scan_bounds(s: Seq<char>, from: int)
    requires
        0 <= from <= s.len(),
    ensures
        from <= skip_ws_from(s, from) <= s.len(),
        from <= token_end_from(s, from) <= s.len(),
    decreases s.len() - from,
{
    if from < s.len() {
        lemma_scan_bounds(s, from + 1);
    }
}

/// Whether one character is an ASCII whitespace character.
pub fn is_ascii_ws_char(c: char) -> (r: bool)
    ensures
        r == is_ascii_ws(c),
{
    c == ' ' || c == '\t' || c == '\n' || c == '\x0C' || c == '\r'
}

/// The first position at or after `from` holding a character that is not
/// ASCII whitespace.
pub fn skip_ws(s: &str, from: usize) -> (r: usize)
    requires
        from <= s@.len(),
    ensures
        r == skip_ws_from(s@, from as int),
        from <= r <= s@.len(),
{
    let n = s.unicode_len();
    let mut i: usize = from;
    while i < n
        invariant
            n == s@.len(),
            from <= i <= n,
            skip_ws_from(s@, from as int) == skip_ws_from(s@, i as int),
        decreases n - i,
    {
        if !is_ascii_ws_char(s.get_char(i)) {
            proof {
                lemma_scan_bounds(s@, i as int);
            }
            return i;
        }
        i = i + 1;
    }
    i
}

/// The first position at or after `from` holding ASCII whitespace.
pub fn token_end(s: &str, from: usize) -> (r: usize)
    requires
        from <= s@.len(),
    ensures
        r == token_end_from(s@, from as int),
        from <= r <= s@.len(),
{
    let n = s.unicode_len();
    let mut i: usize = from;
    while i < n
        invariant
            n == s@.len(),
            from <= i <= n,
            token_end_from(s@, from as int) == token_end_from(s@, i as int),
        decreases n - i,
    {
        if is_ascii_ws_char(s.get_char(i)) {
            proof {
                lemma_scan_bounds(s@, i as int);
            }
            return i;
        }
        i = i + 1;
    }
    i
}

/// Whether one character is an ASCII digit.
pub open spec fn is_digit(c: char) -> bool {
    '0' <= c && c <= '9'
}

/// Whether a string is all ASCII digits.
pub open spec fn all_digits(s: Seq<char>) -> bool {
    forall|i: int| 0 <= i < s.len() ==> is_digit(#[trigger] s[i])
}

/// The number a string of ASCII digits denotes in base ten.
pub open spec fn digits_value(s: Seq<char>) -> int
    decreases s.len(),
{
    if s.len() == 0 {
        0
    } else {
        digits_value(s.drop_last()) * 10 + (s.last() as int - 48)
    }
}

/// A string of digits denotes a number no smaller than any of its
/// prefixes' numbers.
pub proof fn lemma_digits_value_bounds(s: Seq<char>, k: int)
    requires
        all_digits(s),
        0 <= k <= s.len(),
    ensures
        0 <= digits_value(s.take(k)) <= digits_value(s),
    decreases s.len(),
{
    if s.len() == 0 {
        assert(s.take(k) =~= s);
    } else {
        lemma_digits_value_bounds(s.drop_last(), s.len() - 1);
        assert(s.drop_last().take(s.len() - 1) =~= s.drop_last());
        assert(is_digit(s.last()));
        if k == s.len() {
            assert(s.take(k) =~= s);
        } else {
            assert(s.take(k) =~= s.drop_last().take(k));
            assert(forall|i: int| 0 <= i < s.drop_last().len() ==> is_digit(#[trigger] s.drop_last()[i]));
            lemma_digits_value_bounds(s.drop_last(), k);
        }
    }
}

/// The digit part of a number string: everything after an optional
/// leading plus sign.
pub open spec fn u32_digits(s: Seq<char>) -> Seq<char> {
    if s.len() > 0 && s[0] == '+' {
        s.drop_first()
    } else {
        s
    }
}

/// What `str::parse::<u32>` accepts: an optional leading plus sign, then
/// one or more ASCII digits, denoting a number below two to the
/// thirty-second.
pub open spec fn parse_u32_spec(s: Seq<char>) -> Option<u32> {
    let digits = u32_digits(s);
    if digits.len() > 0 && all_digits(digits) && digits_value(digits) <= u32::MAX {
        Some(digits_value(digits) as u32)
    } else {
        None
    }
}

/// Parses a string as a base-ten `u32`, with an optional leading plus
/// sign; anything else, or a value out of range, is `None`.
pub fn parse_u32(s: &str) -> (r: Option<u32>)
    ensures
        r == parse_u32_spec(s@),
{
    let n = s.unicode_len();
    let start: usize = if n > 0 && s.get_char(0) == '+' {
        1
    } else {
        0
    };
    let ghost digits = u32_digits(s@);
    proof {
        assert(digits =~= s@.subrange(start as int, n as int));
    }
    if start >= n {
        return None;
    }
    let mut val: u64 = 0;
    let mut j: usize = start;
    while j < n
        invariant
            n == s@.len(),
            start <= j <= n,
            start < n,
            digits == u32_digits(s@),
            digits =~= s@.subrange(start as int, n as int),
            all_digits(s@.subrange(start as int, j as int)),
            val == digits_value(s@.subrange(start as int, j as int)),
            val <= u32::MAX,
        decreases n - j,
    {
        let c = s.get_char(j);
        if c < '0' || c > '9' {
            proof {
                assert(!is_digit(digits[j - start]));
            }
            return None;
        }
        let d = (c as u8) - 48;
        let next_val = val * 10 + (d as u64);
        proof {
            assert(s@.subrange(start as int, j as int + 1).drop_last() =~= s@.subrange(
                start as int,
                j as int,
            ));
            assert(next_val == digits_value(s@.subrange(start as int, j as int + 1)));
        }
        if next_val > (u32::MAX as u64) {
            proof {
                if all_digits(digits) {
                    lemma_digits_value_bounds(digits, j + 1 - start);
                    assert(digits.take(j + 1 - start) =~= s@.subrange(start as int, j as int + 1));
                }
            }
            return None;
        }
        val = next_val;
        j = j + 1;
    }
    proof {
        assert(s@.subrange(start as int, n as int) =~= digits);
        assert(digits.len() > 0);
        assert(all_digits(digits));
        assert(val == digits_value(digits));
    }
    Some(val as u32)
}

} // verus!
