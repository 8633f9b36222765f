//! Character-level text utilities: searching, trimming, affix tests, line
//! splitting, and decimal rendering. Everything here is defined over
//! `Seq<char>` views and proved exactly.

use vstd::prelude::*;
use vstd::string::{StrSliceExecFns, StringExecFns};

verus! {

/// ASCII whitespace, the class trimmed from header names and values.
pub open spec fn is_space(c: char) -> bool {
    c == ' ' || c == '\t' || c == '\r' || c == '\n'
}

pub open spec fn has_prefix(s: Seq<char>, pre: Seq<char>) -> bool {
    pre.len() <= s.len() && s.subrange(0, pre.len() as int) == pre
}

pub open spec fn has_suffix(s: Seq<char>, suf: Seq<char>) -> bool {
    suf.len() <= s.len() && s.subrange(s.len() - suf.len(), s.len() as int) == suf
}

/// Index of the first occurrence of `c` in `s`, or `s.len()` when `c` is
/// absent.
pub open spec fn find_idx(s: Seq<char>, c: char) -> int
    decreases s.len(),
{
    if s.len() == 0 {
        0
    } else if s[0] == c {
        0
    } else {
        1 + find_idx(s.drop_first(), c)
    }
}

pub proof fn lemma_find_idx(s: Seq<char>, c: char)
    ensures
        0 <= find_idx(s, c) <= s.len(),
        find_idx(s, c) < s.len() ==> s[find_idx(s, c)] == c,
        forall|j: int| 0 <= j < find_idx(s, c) ==> s[j] != c,
    decreases s.len(),
{
    if s.len() > 0 && s[0] != c {
        lemma_find_idx(s.drop_first(), c);
        assert forall|j: int| 0 <= j < find_idx(s, c) implies s[j] != c by {
            if j > 0 {
                assert(s.drop_first()[j - 1] == s[j]);
            }
        }
    }
}

proof fn lemma_find_idx_at(s: Seq<char>, c: char, i: int)
    requires
        0 <= i <= s.len(),
        forall|j: int| 0 <= j < i ==> s[j] != c,
        i < s.len() ==> s[i] == c,
    ensures
        find_idx(s, c) == i,
    decreases s.len(),
{
    if s.len() > 0 && i > 0 {
        assert forall|j: int| 0 <= j < i - 1 implies s.drop_first()[j] != c by {
            assert(s.drop_first()[j] == s[j + 1]);
        }
        assert(i - 1 < s.drop_first().len() ==> s.drop_first()[i - 1] == c);
        lemma_find_idx_at(s.drop_first(), c, i - 1);
    }
}

/// Position of the first occurrence of `c` in `s`; `s@.len()` when absent.
pub fn find_char(s: &str, c: char) -> (r: usize)
    ensures
        r == find_idx(s@, c),
{
    let n = s.unicode_len();
    let mut i: usize = 0;
    while i < n
        invariant
            0 <= i <= n,
            n == s@.len(),
            forall|j: int| 0 <= j < i ==> s@[j] != c,
        decreases n - i,
    {
        if s.get_char(i) == c {
            proof {
                lemma_find_idx_at(s@, c, i as int);
            }
            return i;
        }
        i += 1;
    }
    proof {
        lemma_find_idx_at(s@, c, n as int);
    }
    n
}

pub fn str_eq(a: &str, b: &str) -> (r: bool)
    ensures
        r == (a@ == b@),
{
    let na = a.unicode_len();
    let nb = b.unicode_len();
    if na != nb {
        return false;
    }
    let mut i: usize = 0;
    while i < na
        invariant
            0 <= i <= na,
            na == a@.len(),
            nb == b@.len(),
            na == nb,
            forall|j: int| 0 <= j < i ==> a@[j] == b@[j],
        decreases na - i,
    {
        if a.get_char(i) != b.get_char(i) {
            return false;
        }
        i += 1;
    }
    proof {
        assert(a@ =~= b@);
    }
    true
}

pub fn starts_with_str(s: &str, pre: &str) -> (r: bool)
    ensures
        r == has_prefix(s@, pre@),
{
    let n = s.unicode_len();
    let m = pre.unicode_len();
    if m > n {
        return false;
    }
    let mut i: usize = 0;
    while i < m
        invariant
            0 <= i <= m,
            m <= n,
            n == s@.len(),
            m == pre@.len(),
            forall|j: int| 0 <= j < i ==> s@[j] == pre@[j],
        decreases m - i,
    {
        if s.get_char(i) != pre.get_char(i) {
            proof {
                assert(s@.subrange(0, m as int)[i as int] == s@[i as int]);
            }
            return false;
        }
        i += 1;
    }
    proof {
        assert(s@.subrange(0, m as int) =~= pre@);
    }
    true
}

pub fn ends_with_str(s: &str, suf: &str) -> (r: bool)
    ensures
        r == has_suffix(s@, suf@),
{
    let n = s.unicode_len();
    let m = suf.unicode_len();
    if m > n {
        return false;
    }
    let mut i: usize = 0;
    while i < m
        invariant
            0 <= i <= m,
            m <= n,
            n == s@.len(),
            m == suf@.len(),
            forall|j: int| 0 <= j < i ==> s@[n - m + j] == suf@[j],
        decreases m - i,
    {
        if s.get_char(n - m + i) != suf.get_char(i) {
            proof {
                assert(s@.subrange(n - m, n as int)[i as int] == s@[n - m + i]);
            }
            return false;
        }
        i += 1;
    }
    proof {
        assert(s@.subrange(n - m, n as int) =~= suf@);
    }
    true
}

pub open spec fn trim_start_spec(s: Seq<char>) -> Seq<char>
    decreases s.len(),
{
    if s.len() > 0 && is_space(s[0]) {
        trim_start_spec(s.drop_first())
    } else {
        s
    }
}

pub open spec fn trim_end_spec(s: Seq<char>) -> Seq<char>
    decreases s.len(),
{
    if s.len() > 0 && is_space(s[s.len() - 1]) {
        trim_end_spec(s.drop_last())
    } else {
        s
    }
}

/// `s` with leading and trailing whitespace removed.
pub open spec fn trim_spec(s: Seq<char>) -> Seq<char> {
    trim_end_spec(trim_start_spec(s))
}

proof fn lemma_trim_start_range(s: Seq<char>, k: int)
    requires
        0 <= k <= s.len(),
        forall|j: int| 0 <= j < k ==> is_space(s[j]),
        k < s.len() ==> !is_space(s[k]),
    ensures
        trim_start_spec(s) =~= s.subrange(k, s.len() as int),
    decreases k,
{
    if k > 0 {
        assert forall|j: int| 0 <= j < k - 1 implies is_space(s.drop_first()[j]) by {
            assert(s.drop_first()[j] == s[j + 1]);
        }
        assert(k - 1 < s.drop_first().len() ==> !is_space(s.drop_first()[k - 1]));
        lemma_trim_start_range(s.drop_first(), k - 1);
    }
}

proof fn lemma_trim_end_range(s: Seq<char>, k: int)
    requires
        0 <= k <= s.len(),
        forall|j: int| k <= j < s.len() ==> is_space(s[j]),
        k > 0 ==> !is_space(s[k - 1]),
    ensures
        trim_end_spec(s) =~= s.subrange(0, k),
    decreases s.len() - k,
{
    if k < s.len() {
        lemma_trim_end_range(s.drop_last(), k);
    }
}

pub fn trim_str(s: &str) -> (r: String)
    ensures
        r@ == trim_spec(s@),
{
    let n = s.unicode_len();
    let mut start: usize = 0;
    while start < n && is_space_char(s.get_char(start))
        invariant
            0 <= start <= n,
            n == s@.len(),
            forall|j: int| 0 <= j < start ==> is_space(s@[j]),
        decreases n - start,
    {
        start += 1;
    }
    proof {
        lemma_trim_start_range(s@, start as int);
    }
    let mut end: usize = n;
    while end > start && is_space_char(s.get_char(end - 1))
        invariant
            start <= end <= n,
            n == s@.len(),
            forall|j: int| end <= j < n ==> is_space(s@[j]),
        decreases end,
    {
        end -= 1;
    }
    let mid = s.substring_char(start, end);
    proof {
        let t = s@.subrange(start as int, n as int);
        assert forall|j: int| (end - start) <= j < t.len() implies is_space(t[j]) by {
            assert(t[j] == s@[start + j]);
        }
        assert(end - start > 0 ==> !is_space(t[end - start - 1]));
        lemma_trim_end_range(t, end - start);
        assert(t.subrange(0, end - start) =~= s@.subrange(start as int, end as int));
    }
    mid.to_owned()
}

pub fn is_space_char(c: char) -> (r: bool)
    ensures
        r == is_space(c),
{
    c == ' ' || c == '\t' || c == '\r' || c == '\n'
}

/// `s` with every leading occurrence of `c` removed.
pub open spec fn strip_leading_spec(s: Seq<char>, c: char) -> Seq<char>
    decreases s.len(),
{
    if s.len() > 0 && s[0] == c {
        strip_leading_spec(s.drop_first(), c)
    } else {
        s
    }
}

proof fn lemma_strip_leading_range(s: Seq<char>, c: char, k: int)
    requires
        0 <= k <= s.len(),
        forall|j: int| 0 <= j < k ==> s[j] == c,
        k < s.len() ==> s[k] != c,
    ensures
        strip_leading_spec(s, c) =~= s.subrange(k, s.len() as int),
    decreases k,
{
    if k > 0 {
        assert forall|j: int| 0 <= j < k - 1 implies s.drop_first()[j] == c by {
            assert(s.drop_first()[j] == s[j + 1]);
        }
        assert(k - 1 < s.drop_first().len() ==> s.drop_first()[k - 1] != c);
        lemma_strip_leading_range(s.drop_first(), c, k - 1);
    }
}

pub fn strip_leading(s: &str, c: char) -> (r: String)
    ensures
        r@ == strip_leading_spec(s@, c),
{
    let n = s.unicode_len();
    let mut k: usize = 0;
    while k < n && s.get_char(k) == c
        invariant
            0 <= k <= n,
            n == s@.len(),
            forall|j: int| 0 <= j < k ==> s@[j] == c,
        decreases n - k,
    {
        k += 1;
    }
    proof {
        lemma_strip_leading_range(s@, c, k as int);
    }
    s.substring_char(k, n).to_owned()
}

/// The character for a single decimal digit.
pub open spec fn dec_digit(d: int) -> char {
    if d == 0 {
        '0'
    } else if d == 1 {
        '1'
    } else if d == 2 {
        '2'
    } else if d == 3 {
        '3'
    } else if d == 4 {
        '4'
    } else if d == 5 {
        '5'
    } else if d == 6 {
        '6'
    } else if d == 7 {
        '7'
    } else if d == 8 {
        '8'
    } else {
        '9'
    }
}

/// Decimal rendering of a non-negative integer, most significant digit
/// first, with no leading zeros (a lone zero for 0).
pub open spec fn dec_str(n: int) -> Seq<char>
    decreases n,
{
    if n < 10 {
        seq![dec_digit(n)]
    } else {
        dec_str(n / 10).push(dec_digit(n % 10))
    }
}

fn digit_to_string(d: u64) -> (s: String)
    requires
        d < 10,
    ensures
        s@ == seq![dec_digit(d as int)],
{
    let lit: &str = if d == 0 {
        "0"
    } else if d == 1 {
        "1"
    } else if d == 2 {
        "2"
    } else if d == 3 {
        "3"
    } else if d == 4 {
        "4"
    } else if d == 5 {
        "5"
    } else if d == 6 {
        "6"
    } else if d == 7 {
        "7"
    } else if d == 8 {
        "8"
    } else {
        "9"
    };
    proof {
        reveal_strlit("0");
        reveal_strlit("1");
        reveal_strlit("2");
        reveal_strlit("3");
        reveal_strlit("4");
        reveal_strlit("5");
        reveal_strlit("6");
        reveal_strlit("7");
        reveal_strlit("8");
        reveal_strlit("9");
    }
    let s = lit.to_owned();
    proof {
        assert(s@ =~= seq![dec_digit(d as int)]);
    }
    s
}

pub fn u64_to_string(n: u64) -> (s: String)
    ensures
        s@ == dec_str(n as int),
    decreases n,
{
    if n < 10 {
        digit_to_string(n)
    } else {
        let mut s = u64_to_string(n / 10);
        let d = digit_to_string(n % 10);
        s.append(d.as_str());
        proof {
            assert(s@ =~= dec_str(n as int));
        }
        s
    }
}

/// Decimal rendering of an integer, with a leading minus sign when it is
/// negative.
pub open spec fn dec_str_signed(n: int) -> Seq<char> {
    if n < 0 {
        seq!['-'] + dec_str(-n)
    } else {
        dec_str(n)
    }
}

pub fn i64_to_string(n: i64) -> (s: String)
    ensures
        s@ == dec_str_signed(n as int),
{
    if n >= 0 {
        u64_to_string(n as u64)
    } else {
        let magnitude: u64 = if n == i64::MIN {
            9_223_372_036_854_775_808u64
        } else {
            (-n) as u64
        };
        let mut s = String::new();
        s.append("-");
        let digits = u64_to_string(magnitude);
        s.append(digits.as_str());
        proof {
            reveal_strlit("-");
            assert(s@ =~= dec_str_signed(n as int));
        }
        s
    }
}

/// Decimal rendering padded with zeros on the left to two digits.
pub open spec fn dec2_str(n: int) -> Seq<char> {
    if n < 10 {
        seq![dec_digit(0)] + dec_str(n)
    } else {
        dec_str(n)
    }
}

/// Decimal rendering padded with zeros on the left to three digits.
pub open spec fn dec3_str(n: int) -> Seq<char> {
    if n < 10 {
        seq![dec_digit(0), dec_digit(0)] + dec_str(n)
    } else if n < 100 {
        seq![dec_digit(0)] + dec_str(n)
    } else {
        dec_str(n)
    }
}

pub fn u64_to_string_pad2(n: u64) -> (s: String)
    requires
        n < 100,
    ensures
        s@ == dec2_str(n as int),
{
    if n < 10 {
        let mut s = digit_to_string(0);
        let d = digit_to_string(n);
        s.append(d.as_str());
        proof {
            assert(s@ =~= dec2_str(n as int));
        }
        s
    } else {
        u64_to_string(n)
    }
}

pub fn u64_to_string_pad3(n: u64) -> (s: String)
    requires
        n < 1000,
    ensures
        s@ == dec3_str(n as int),
{
    if n < 10 {
        let mut s = digit_to_string(0);
        let z = digit_to_string(0);
        let d = digit_to_string(n);
        s.append(z.as_str());
        s.append(d.as_str());
        proof {
            assert(s@ =~= dec3_str(n as int));
        }
        s
    } else if n < 100 {
        let mut s = digit_to_string(0);
        let d = u64_to_string(n);
        s.append(d.as_str());
        proof {
            assert(s@ =~= dec3_str(n as int));
        }
        s
    } else {
        u64_to_string(n)
    }
}

/// `s` without a single trailing carriage return, if one is present.
pub open spec fn strip_cr(s: Seq<char>) -> Seq<char> {
    if s.len() > 0 && s[s.len() - 1] == '\r' {
        s.drop_last()
    } else {
        s
    }
}

pub fn strip_cr_str(s: &str) -> (r: String)
    ensures
        r@ == strip_cr(s@),
{
    let n = s.unicode_len();
    if n > 0 && s.get_char(n - 1) == '\r' {
        let r = s.substring_char(0, n - 1).to_owned();
        proof {
            assert(r@ =~= strip_cr(s@));
        }
        r
    } else {
        s.to_owned()
    }
}

/// The physical lines of `s`: split on `'\n'`, a trailing carriage return
/// removed from each piece, and no final empty line after a terminating
/// newline. Matches the splitting used when multi-line text is logged.
pub open spec fn lines_spec(s: Seq<char>) -> Seq<Seq<char>>
    decreases s.len(),
    via lines_spec_decreases
{
    if s.len() == 0 {
        Seq::empty()
    } else if find_idx(s, '\n') == s.len() {
        seq![strip_cr(s)]
    } else {
        seq![strip_cr(s.subrange(0, find_idx(s, '\n')))] + lines_spec(
            s.subrange(find_idx(s, '\n') + 1, s.len() as int),
        )
    }
}

#[via_fn]
proof fn lines_spec_decreases(s: Seq<char>) {
    lemma_find_idx(s, '\n');
}

pub fn split_lines(s: &str) -> (v: Vec<String>)
    ensures
        v@.map_values(|t: String| t@) == lines_spec(s@),
    decreases s@.len(),
{
    let n = s.unicode_len();
    if n == 0 {
        let v: Vec<String> = Vec::new();
        proof {
            assert(v@.map_values(|t: String| t@) =~= lines_spec(s@));
        }
        return v;
    }
    let i = find_char(s, '\n');
    proof {
        lemma_find_idx(s@, '\n');
    }
    if i == n {
        let line = strip_cr_str(s);
        let mut v: Vec<String> = Vec::new();
        v.push(line);
        proof {
            assert(v@.map_values(|t: String| t@) =~= lines_spec(s@));
        }
        v
    } else {
        let first = s.substring_char(0, i);
        let rest = s.substring_char(i + 1, n);
        let line = strip_cr_str(first);
        let mut v: Vec<String> = Vec::new();
        v.push(line);
        let mut more = split_lines(rest);
        v.append(&mut more);
        proof {
            assert(v@.map_values(|t: String| t@) =~= lines_spec(s@));
        }
        v
    }
}

} // verus!
