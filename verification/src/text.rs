//! Small verified text utilities: ASCII case folding, string comparison,
//! case-insensitive substring search, decimal parsing and formatting.
//!
//! The provider returns numbers as quoted strings and all of its marker
//! fields and classification keywords are ASCII, so ASCII folding is the
//! right notion of case-insensitivity here.

use vstd::prelude::*;

verus! {

/// ASCII lower-casing of one character; code points outside 'A'..'Z'
/// pass through unchanged.
pub open spec fn spec_lower_char(c: char) -> char {
    if 65 <= c as u32 && c as u32 <= 90 {
        ((c as u32 + 32) as u8) as char
    } else {
        c
    }
}

/// ASCII lower-casing of a character sequence.
pub open spec fn spec_lower(s: Seq<char>) -> Seq<char> {
    s.map_values(|c: char| spec_lower_char(c))
}

/// ASCII lower-casing of one character.
pub fn lower_char(c: char) -> (r: char)
    ensures
        r == spec_lower_char(c),
{
    let u = c as u32;
    if 65 <= u && u <= 90 {
        ((u + 32) as u8) as char
    } else {
        c
    }
}

/// Character-wise equality of two string slices.
pub fn str_eq(a: &str, b: &str) -> (r: bool)
    ensures
        r == (a@ == b@),
{
    let alen = a.unicode_len();
    let blen = b.unicode_len();
    if alen != blen {
        return false;
    }
    let mut i: usize = 0;
    while i < alen
        invariant
            0 <= i <= alen,
            alen == a@.len(),
            alen == b@.len(),
            forall|j: int| 0 <= j < i ==> a@[j] == b@[j],
        decreases alen - i,
    {
        if a.get_char(i) != b.get_char(i) {
            return false;
        }
        i += 1;
    }
    proof {
        assert(a@ =~= b@);
    }
    true
}

/// Equality of two string slices after ASCII lower-casing both.
pub fn str_eq_ci(a: &str, b: &str) -> (r: bool)
    ensures
        r == (spec_lower(a@) == spec_lower(b@)),
{
    let alen = a.unicode_len();
    let blen = b.unicode_len();
    if alen != blen {
        proof {
            assert(spec_lower(a@).len() != spec_lower(b@).len());
        }
        return false;
    }
    let mut i: usize = 0;
    while i < alen
        invariant
            0 <= i <= alen,
            alen == a@.len(),
            alen == b@.len(),
            forall|j: int| 0 <= j < i ==> spec_lower_char(a@[j]) == spec_lower_char(b@[j]),
        decreases alen - i,
    {
        if lower_char(a.get_char(i)) != lower_char(b.get_char(i)) {
            proof {
                assert(spec_lower(a@)[i as int] != spec_lower(b@)[i as int]);
            }
            return false;
        }
        i += 1;
    }
    proof {
        assert(spec_lower(a@) =~= spec_lower(b@));
    }
    true
}

/// Does `pat` occur as a contiguous subsequence of `hay`?
pub open spec fn spec_contains_seq(hay: Seq<char>, pat: Seq<char>) -> bool {
    exists|i: int|
        0 <= i && i + pat.len() <= hay.len() && #[trigger] hay.subrange(i, i + pat.len() as int)
            == pat
}

/// Does the ASCII-lowered pattern occur at position `at` of the
/// ASCII-lowered haystack?
fn matches_at_ci(hay: &str, pat: &str, at: usize) -> (r: bool)
    requires
        at + pat@.len() <= hay@.len(),
        hay@.len() <= usize::MAX,
    ensures
        r == (spec_lower(hay@).subrange(at as int, at + spec_lower(pat@).len()) == spec_lower(
            pat@,
        )),
{
    let plen = pat.unicode_len();
    let mut j: usize = 0;
    while j < plen
        invariant
            0 <= j <= plen,
            plen == pat@.len(),
            at + plen <= hay@.len(),
            hay@.len() <= usize::MAX,
            forall|k: int|
                0 <= k < j ==> spec_lower_char(hay@[at + k]) == spec_lower_char(pat@[k]),
        decreases plen - j,
    {
        if lower_char(hay.get_char(at + j)) != lower_char(pat.get_char(j)) {
            proof {
                let lh = spec_lower(hay@);
                let lp = spec_lower(pat@);
                assert(lh.subrange(at as int, at + lp.len())[j as int] != lp[j as int]);
            }
            return false;
        }
        j += 1;
    }
    proof {
        let lh = spec_lower(hay@);
        let lp = spec_lower(pat@);
        assert(lh.subrange(at as int, at + lp.len()) =~= lp);
    }
    true
}

/// Case-insensitive (ASCII) substring test.
pub fn contains_ci(hay: &str, pat: &str) -> (r: bool)
    ensures
        r == spec_contains_seq(spec_lower(hay@), spec_lower(pat@)),
{
    let hlen = hay.unicode_len();
    let plen = pat.unicode_len();
    if plen > hlen {
        return false;
    }
    if plen == 0 {
        proof {
            assert(spec_lower(pat@).len() == 0);
            assert(spec_lower(hay@).subrange(0, 0 + spec_lower(pat@).len() as int) =~= spec_lower(
                pat@,
            ));
        }
        return true;
    }
    let mut i: usize = 0;
    while i <= hlen - plen
        invariant
            0 <= i <= hlen - plen + 1,
            plen <= hlen,
            hlen == hay@.len(),
            plen == pat@.len(),
            0 < plen,
            forall|k: int|
                0 <= k < i ==> #[trigger] spec_lower(hay@).subrange(
                    k,
                    k + spec_lower(pat@).len(),
                ) != spec_lower(pat@),
        decreases hlen - plen - i + 1,
    {
        if matches_at_ci(hay, pat, i) {
            return true;
        }
        i += 1;
    }
    false
}

/// Does the pattern occur at position `at` of the haystack?
fn matches_at(hay: &str, pat: &str, at: usize) -> (r: bool)
    requires
        at + pat@.len() <= hay@.len(),
        hay@.len() <= usize::MAX,
    ensures
        r == (hay@.subrange(at as int, at + pat@.len()) == pat@),
{
    let plen = pat.unicode_len();
    let mut j: usize = 0;
    while j < plen
        invariant
            0 <= j <= plen,
            plen == pat@.len(),
            at + plen <= hay@.len(),
            hay@.len() <= usize::MAX,
            forall|k: int| 0 <= k < j ==> hay@[at + k] == pat@[k],
        decreases plen - j,
    {
        if hay.get_char(at + j) != pat.get_char(j) {
            proof {
                assert(hay@.subrange(at as int, at + pat@.len())[j as int] != pat@[j as int]);
            }
            return false;
        }
        j += 1;
    }
    proof {
        assert(hay@.subrange(at as int, at + pat@.len()) =~= pat@);
    }
    true
}

/// Case-sensitive substring test, as `str::contains` gives it for plain
/// string patterns.
pub fn contains_str(hay: &str, pat: &str) -> (r: bool)
    ensures
        r == spec_contains_seq(hay@, pat@),
{
    let hlen = hay.unicode_len();
    let plen = pat.unicode_len();
    if plen > hlen {
        return false;
    }
    if plen == 0 {
        proof {
            assert(hay@.subrange(0, 0 + pat@.len() as int) =~= pat@);
        }
        return true;
    }
    let mut i: usize = 0;
    while i <= hlen - plen
        invariant
            0 <= i <= hlen - plen + 1,
            plen <= hlen,
            hlen == hay@.len(),
            plen == pat@.len(),
            0 < plen,
            forall|k: int|
                0 <= k < i ==> #[trigger] hay@.subrange(k, k + pat@.len()) != pat@,
        decreases hlen - plen - i + 1,
    {
        if matches_at(hay, pat, i) {
            return true;
        }
        i += 1;
    }
    false
}

/// The position of the first occurrence of `c` at or after `i`, if any.
pub open spec fn spec_find_from(s: Seq<char>, c: char, i: int) -> Option<int>
    decreases s.len() - i,
{
    if i < 0 || i >= s.len() {
        None
    } else if s[i] == c {
        Some(i)
    } else {
        spec_find_from(s, c, i + 1)
    }
}

/// A found position lies between the start of the search and the end
/// of the sequence.
pub proof fn lemma_find_in_range(s: Seq<char>, c: char, from: int)
    ensures
        spec_find_from(s, c, from) is Some ==> from <= spec_find_from(s, c, from)->Some_0
            < s.len() && s[spec_find_from(s, c, from)->Some_0] == c,
    decreases s.len() - from,
{
    if 0 <= from < s.len() && s[from] != c {
        lemma_find_in_range(s, c, from + 1);
    }
}

/// Find the first occurrence of a character at or after a position.
pub fn find_char_from(s: &str, c: char, from: usize) -> (r: Option<usize>)
    ensures
        r is Some ==> spec_find_from(s@, c, from as int) == Some(r->0 as int),
        r is None ==> spec_find_from(s@, c, from as int) is None,
{
    let len = s.unicode_len();
    let mut i: usize = from;
    while i < len
        invariant
            from <= i,
            len == s@.len(),
            spec_find_from(s@, c, from as int) == spec_find_from(s@, c, i as int),
        decreases len - i,
    {
        if s.get_char(i) == c {
            return Some(i);
        }
        i += 1;
    }
    None
}

/// Value of a decimal digit character.
pub open spec fn spec_digit_val(c: char) -> int {
    c as u32 - 48
}

/// Is this character a decimal digit?
pub open spec fn spec_is_digit(c: char) -> bool {
    48 <= c as u32 && c as u32 <= 57
}

/// Is every character of the sequence a decimal digit?
pub open spec fn spec_all_digits(s: Seq<char>) -> bool {
    forall|i: int| 0 <= i < s.len() ==> spec_is_digit(#[trigger] s[i])
}

/// The value of a non-empty sequence of decimal digits.
pub open spec fn spec_digits_val(s: Seq<char>) -> int
    decreases s.len(),
{
    if s.len() == 0 {
        0
    } else {
        spec_digits_val(s.drop_last()) * 10 + spec_digit_val(s.last())
    }
}

/// The integer a string denotes under the usual decimal syntax: an
/// optional sign followed by at least one digit; anything else denotes
/// nothing.
pub open spec fn spec_int_str_val(s: Seq<char>) -> Option<int> {
    if s.len() >= 2 && (s[0] == '-' || s[0] == '+') && spec_all_digits(s.skip(1)) {
        if s[0] == '-' {
            Some(-spec_digits_val(s.skip(1)))
        } else {
            Some(spec_digits_val(s.skip(1)))
        }
    } else if s.len() >= 1 && spec_all_digits(s) {
        Some(spec_digits_val(s))
    } else {
        None
    }
}

/// Parse the digit run `s[from..]`, already known to start after any sign.
/// Returns the exact value when it fits below the given magnitude bound,
/// and reports overflow otherwise.
fn parse_digits(s: &str, from: usize) -> (r: Result<i64, ()>)
    requires
        from < s@.len(),
    ensures
        match r {
            Ok(v) => spec_all_digits(s@.skip(from as int)) && v == spec_digits_val(
                s@.skip(from as int),
            ) && 0 <= v <= 0x8000_0000i64,
            Err(_) => !spec_all_digits(s@.skip(from as int)) || spec_digits_val(
                s@.skip(from as int),
            ) > 0x8000_0000,
        },
{
    let len = s.unicode_len();
    let ghost digits = s@.skip(from as int);
    let mut acc: i64 = 0;
    let mut over: bool = false;
    let mut i: usize = from;
    while i < len
        invariant
            from <= i <= len,
            len == s@.len(),
            from < s@.len(),
            digits == s@.skip(from as int),
            spec_all_digits(s@.subrange(from as int, i as int)),
            !over ==> acc == spec_digits_val(s@.subrange(from as int, i as int)) && 0 <= acc
                <= 0x8000_0000i64,
            over ==> spec_digits_val(s@.subrange(from as int, i as int)) > 0x8000_0000,
        decreases len - i,
    {
        let c = s.get_char(i);
        let u = c as u32;
        if u < 48 || u > 57 {
            proof {
                assert(!spec_is_digit(s@.skip(from as int)[i - from]));
            }
            return Err(());
        }
        let d = (u - 48) as i64;
        proof {
            assert(s@.subrange(from as int, i + 1).drop_last() =~= s@.subrange(
                from as int,
                i as int,
            ));
            assert(s@.subrange(from as int, i + 1).last() == s@[i as int]);
            if over {
                lemma_digits_over_grows(
                    spec_digits_val(s@.subrange(from as int, i as int)),
                    spec_digit_val(s@[i as int]),
                );
            }
        }
        if !over {
            let next = acc * 10 + d;
            if next > 0x8000_0000i64 {
                over = true;
                acc = 0;
            } else {
                acc = next;
            }
        }
        i += 1;
    }
    proof {
        assert(s@.subrange(from as int, len as int) =~= s@.skip(from as int));
    }
    if over {
        Err(())
    } else {
        Ok(acc)
    }
}

/// Appending a digit to an already-overflowing run keeps it overflowing.
proof fn lemma_digits_over_grows(v: int, d: int)
    requires
        v > 0x8000_0000,
        d >= 0,
    ensures
        v * 10 + d > 0x8000_0000,
{
}

/// Parse a signed decimal string into an `i32`, accepting exactly the
/// strings that denote an integer in the `i32` range: an optional sign
/// followed by one or more digits.
pub fn parse_i32_str(s: &str) -> (r: Result<i32, ()>)
    ensures
        match r {
            Ok(v) => spec_int_str_val(s@) == Some(v as int),
            Err(_) => spec_int_str_val(s@) is None || !{
                let v = spec_int_str_val(s@)->Some_0;
                -0x8000_0000 <= v <= 0x7FFF_FFFF
            },
        },
{
    let len = s.unicode_len();
    if len == 0 {
        return Err(());
    }
    let first = s.get_char(0);
    let negative = first == '-';
    let signed = negative || first == '+';
    let from: usize = if signed {
        1
    } else {
        0
    };
    if from >= len {
        proof {
            if spec_all_digits(s@) {
                assert(spec_is_digit(s@[0]));
            }
        }
        return Err(());
    }
    let magnitude = match parse_digits(s, from) {
        Ok(v) => v,
        Err(_) => {
            proof {
                if signed {
                    if spec_all_digits(s@) {
                        assert(spec_is_digit(s@[0]));
                    }
                } else {
                    assert(s@.skip(0) =~= s@);
                }
            }
            return Err(());
        },
    };
    proof {
        if signed {
            if spec_all_digits(s@) {
                assert(spec_is_digit(s@[0]));
            }
            assert(spec_int_str_val(s@) == if negative {
                Some(-spec_digits_val(s@.skip(1)))
            } else {
                Some(spec_digits_val(s@.skip(1)))
            });
        } else {
            assert(s@.skip(0) =~= s@);
            assert(spec_is_digit(s@[0]));
            assert(spec_int_str_val(s@) == Some(spec_digits_val(s@)));
        }
    }
    if negative {
        Ok((-magnitude) as i32)
    } else if magnitude <= 0x7FFF_FFFFi64 {
        Ok(magnitude as i32)
    } else {
        Err(())
    }
}

/// The character for a decimal digit value.
pub open spec fn spec_digit_char(d: int) -> char {
    ((48 + d) as u8) as char
}

/// The canonical decimal rendering of a non-negative integer.
pub open spec fn spec_dec_str(n: int) -> Seq<char>
    recommends
        n >= 0,
    decreases n,
{
    if n < 10 {
        seq![spec_digit_char(n)]
    } else {
        spec_dec_str(n / 10).push(spec_digit_char(n % 10))
    }
}

/// The one-character string for a decimal digit value.
fn digit_str(d: u32) -> (r: &'static str)
    requires
        d < 10,
    ensures
        r@ =~= seq![spec_digit_char(d as int)],
{
    proof {
        reveal_strlit("0");
        reveal_strlit("1");
        reveal_strlit("2");
        reveal_strlit("3");
        reveal_strlit("4");
        reveal_strlit("5");
        reveal_strlit("6");
        reveal_strlit("7");
        reveal_strlit("8");
        reveal_strlit("9");
    }
    match d {
        0 => "0",
        1 => "1",
        2 => "2",
        3 => "3",
        4 => "4",
        5 => "5",
        6 => "6",
        7 => "7",
        8 => "8",
        _ => "9",
    }
}

/// Render a `u32` in decimal.
pub fn u32_to_string(n: u32) -> (r: String)
    ensures
        r@ == spec_dec_str(n as int),
    decreases n,
{
    if n < 10 {
        String::from_str(digit_str(n))
    } else {
        let mut prefix = u32_to_string(n / 10);
        prefix.append(digit_str(n % 10));
        prefix
    }
}

} // verus!
