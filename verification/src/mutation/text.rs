//! Verified text utilities for the mutation orchestrator.
//!
//! Keyword classification, identifier hashing and run-id parsing all come
//! down to a handful of string operations.  This module gives each one an
//! exact specification over sequences of characters, so the contracts of
//! the orchestrator's classifiers can be stated precisely.

use vstd::prelude::*;
use vstd::string::StrSliceExecFns;
use vstd::string::StringExecFns;

verus! {

/// The Unicode scalar value of a character after ASCII lowercasing.
pub open spec fn lower_val(c: char) -> int {
    if 65 <= c as int <= 90 {
        c as int + 32
    } else {
        c as int
    }
}

/// Two characters match up to ASCII case.
pub open spec fn char_matches_ci(a: char, b: char) -> bool {
    lower_val(a) == lower_val(b)
}

/// The pattern matches the text at offset `at`, up to ASCII case.
pub open spec fn matches_ci_at(text: Seq<char>, pat: Seq<char>, at: int) -> bool {
    &&& 0 <= at
    &&& at + pat.len() <= text.len()
    &&& forall|j: int| 0 <= j < pat.len() ==> char_matches_ci(text[at + j], #[trigger] pat[j])
}

/// The text contains the pattern somewhere, up to ASCII case.  This is what
/// `lowercase-then-substring-search` computes when the pattern holds no
/// ASCII uppercase letter.
pub open spec fn contains_ci(text: Seq<char>, pat: Seq<char>) -> bool {
    exists|at: int| matches_ci_at(text, pat, at)
}

/// A byte equals a character's Unicode scalar value.  For an ASCII
/// character this says the byte is its ASCII code.
pub open spec fn byte_matches_char(b: u8, c: char) -> bool {
    b as int == c as int
}

/// The character pattern matches the byte text at offset `at`.
pub open spec fn bytes_match_at(text: Seq<u8>, pat: Seq<char>, at: int) -> bool {
    &&& 0 <= at
    &&& at + pat.len() <= text.len()
    &&& forall|j: int| 0 <= j < pat.len() ==> byte_matches_char(text[at + j], #[trigger] pat[j])
}

/// The byte text contains the character pattern somewhere.  For an ASCII
/// pattern this is byte-wise substring search.
pub open spec fn bytes_contain(text: Seq<u8>, pat: Seq<char>) -> bool {
    exists|at: int| bytes_match_at(text, pat, at)
}

/// Collects the characters of a string into a vector.
pub fn chars_vec(s: &str) -> (v: Vec<char>)
    ensures
        v@ == s@,
{
    let n = s.unicode_len();
    let mut v: Vec<char> = Vec::new();
    let mut i: usize = 0;
    while i < n
        invariant
            n == s@.len(),
            i <= n,
            v@ == s@.take(i as int),
        decreases n - i,
    {
        let c = s.get_char(i);
        v.push(c);
        proof {
            assert(v@ =~= s@.take(i + 1));
        }
        i += 1;
    }
    proof {
        assert(s@.take(n as int) =~= s@);
    }
    v
}

/// Compares two characters up to ASCII case.
pub fn char_eq_ci(a: char, b: char) -> (r: bool)
    ensures
        r == char_matches_ci(a, b),
{
    let x = a as u32;
    let y = b as u32;
    let xl = if 65 <= x && x <= 90 {
        x + 32
    } else {
        x
    };
    let yl = if 65 <= y && y <= 90 {
        y + 32
    } else {
        y
    };
    xl == yl
}

/// Case-insensitive substring search: does `text` contain `pat`, up to
/// ASCII case?
pub fn text_contains_ci(text: &Vec<char>, pat: &str) -> (found: bool)
    ensures
        found == contains_ci(text@, pat@),
{
    let p = chars_vec(pat);
    let n = text.len();
    let m = p.len();
    if m > n {
        proof {
            assert(forall|at: int| !matches_ci_at(text@, pat@, at));
        }
        return false;
    }
    let mut at: usize = 0;
    while at <= n - m
        invariant
            n == text@.len(),
            m == pat@.len(),
            p@ == pat@,
            m <= n,
            at <= n - m + 1,
            forall|k: int| 0 <= k < at ==> !matches_ci_at(text@, pat@, k),
        decreases n - m - at + 1,
    {
        let mut j: usize = 0;
        let mut all_match = true;
        while j < m
            invariant
                n == text@.len(),
                m == pat@.len(),
                p@ == pat@,
                m <= n,
                at <= n - m,
                j <= m,
                all_match || j == m,
                all_match == forall|l: int| 0 <= l < j ==> char_matches_ci(
                    text@[at + l],
                    #[trigger] pat@[l],
                ),
            decreases m - j,
        {
            let same = char_eq_ci(text[at + j], p[j]);
            if !same {
                all_match = false;
                j = m;
            } else {
                proof {
                    assert(char_matches_ci(text@[at + j], pat@[j as int]));
                    assert(forall|l: int|
                        0 <= l < j + 1 ==> char_matches_ci(text@[at + l], #[trigger] pat@[l]));
                }
                j += 1;
            }
        }
        if all_match {
            assert(matches_ci_at(text@, pat@, at as int));
            return true;
        }
        proof {
            assert(!matches_ci_at(text@, pat@, at as int));
        }
        at += 1;
    }
    proof {
        assert(forall|k: int| !matches_ci_at(text@, pat@, k));
    }
    false
}

/// Byte-level substring search for an ASCII pattern given as a string.
pub fn bytes_contain_pattern(text: &[u8], pat: &str) -> (found: bool)
    ensures
        found == bytes_contain(text@, pat@),
{
    let p = chars_vec(pat);
    let n = text.len();
    let m = p.len();
    if m > n {
        proof {
            assert(forall|at: int| !bytes_match_at(text@, pat@, at));
        }
        return false;
    }
    let mut at: usize = 0;
    while at <= n - m
        invariant
            n == text@.len(),
            m == pat@.len(),
            p@ == pat@,
            m <= n,
            at <= n - m + 1,
            forall|k: int| 0 <= k < at ==> !bytes_match_at(text@, pat@, k),
        decreases n - m - at + 1,
    {
        let mut j: usize = 0;
        let mut all_match = true;
        while j < m
            invariant
                n == text@.len(),
                m == pat@.len(),
                p@ == pat@,
                m <= n,
                at <= n - m,
                j <= m,
                all_match || j == m,
                all_match == forall|l: int| 0 <= l < j ==> byte_matches_char(
                    text@[at + l],
                    #[trigger] pat@[l],
                ),
            decreases m - j,
        {
            let b = text[at + j];
            let same = (b as char) == p[j];
            if !same {
                all_match = false;
                j = m;
            } else {
                proof {
                    assert(byte_matches_char(text@[at + j], pat@[j as int]));
                    assert(forall|l: int|
                        0 <= l < j + 1 ==> byte_matches_char(text@[at + l], #[trigger] pat@[l]));
                }
                j += 1;
            }
        }
        if all_match {
            assert(bytes_match_at(text@, pat@, at as int));
            return true;
        }
        proof {
            assert(!bytes_match_at(text@, pat@, at as int));
        }
        at += 1;
    }
    proof {
        assert(forall|k: int| !bytes_match_at(text@, pat@, k));
    }
    false
}

/// The pattern matches the text at offset `at`, exactly.
pub open spec fn matches_at(text: Seq<char>, pat: Seq<char>, at: int) -> bool {
    &&& 0 <= at
    &&& at + pat.len() <= text.len()
    &&& forall|j: int| 0 <= j < pat.len() ==> text[at + j] == #[trigger] pat[j]
}

/// The text contains the pattern somewhere, exactly — what
/// `str::contains` with a string pattern decides.
pub open spec fn contains_exact(text: Seq<char>, pat: Seq<char>) -> bool {
    exists|at: int| matches_at(text, pat, at)
}

/// Case-sensitive substring search.
pub fn text_contains(text: &Vec<char>, pat: &str) -> (found: bool)
    ensures
        found == contains_exact(text@, pat@),
{
    let p = chars_vec(pat);
    let n = text.len();
    let m = p.len();
    if m > n {
        proof {
            assert(forall|at: int| !matches_at(text@, pat@, at));
        }
        return false;
    }
    let mut at: usize = 0;
    while at <= n - m
        invariant
            n == text@.len(),
            m == pat@.len(),
            p@ == pat@,
            m <= n,
            at <= n - m + 1,
            forall|k: int| 0 <= k < at ==> !matches_at(text@, pat@, k),
        decreases n - m - at + 1,
    {
        let mut j: usize = 0;
        let mut all_match = true;
        while j < m
            invariant
                n == text@.len(),
                m == pat@.len(),
                p@ == pat@,
                m <= n,
                at <= n - m,
                j <= m,
                all_match || j == m,
                all_match == forall|l: int| 0 <= l < j ==> text@[at + l] == #[trigger] pat@[l],
            decreases m - j,
        {
            if text[at + j] != p[j] {
                all_match = false;
                j = m;
            } else {
                proof {
                    assert(text@[at + j] == pat@[j as int]);
                    assert(forall|l: int| 0 <= l < j + 1 ==> text@[at + l] == #[trigger] pat@[l]);
                }
                j += 1;
            }
        }
        if all_match {
            assert(matches_at(text@, pat@, at as int));
            return true;
        }
        proof {
            assert(!matches_at(text@, pat@, at as int));
        }
        at += 1;
    }
    proof {
        assert(forall|k: int| !matches_at(text@, pat@, k));
    }
    false
}

/// Does `text` start with `pat`?
pub fn starts_with_pattern(text: &Vec<char>, pat: &str) -> (r: bool)
    ensures
        r == pat@.is_prefix_of(text@),
{
    let p = chars_vec(pat);
    let n = text.len();
    let m = p.len();
    if m > n {
        return false;
    }
    let mut j: usize = 0;
    while j < m
        invariant
            n == text@.len(),
            m == pat@.len(),
            p@ == pat@,
            m <= n,
            j <= m,
            forall|l: int| 0 <= l < j ==> text@[l] == #[trigger] pat@[l],
        decreases m - j,
    {
        if text[j] != p[j] {
            proof {
                assert(pat@[j as int] != text@.take(m as int)[j as int]);
            }
            return false;
        }
        j += 1;
    }
    proof {
        assert(pat@ =~= text@.take(m as int));
    }
    true
}

/// Does the character vector spell exactly the given string?
pub fn chars_eq_str(text: &Vec<char>, pat: &str) -> (r: bool)
    ensures
        r == (text@ == pat@),
{
    let n = text.len();
    let m = pat.unicode_len();
    if n != m {
        return false;
    }
    let r = starts_with_pattern(text, pat);
    proof {
        assert(text@.take(m as int) =~= text@);
    }
    r
}

/// A character with the Unicode `White_Space` property; these are exactly
/// the characters that `trim` strips.
pub open spec fn is_space_char(c: char) -> bool {
    ||| c == '\u{0009}'
    ||| c == '\u{000A}'
    ||| c == '\u{000B}'
    ||| c == '\u{000C}'
    ||| c == '\u{000D}'
    ||| c == '\u{0020}'
    ||| c == '\u{0085}'
    ||| c == '\u{00A0}'
    ||| c == '\u{1680}'
    ||| ('\u{2000}' <= c && c <= '\u{200A}')
    ||| c == '\u{2028}'
    ||| c == '\u{2029}'
    ||| c == '\u{202F}'
    ||| c == '\u{205F}'
    ||| c == '\u{3000}'
}

/// Runtime check for [`is_space_char`].
pub fn is_space(c: char) -> (r: bool)
    ensures
        r == is_space_char(c),
{
    c == '\u{0009}' || c == '\u{000A}' || c == '\u{000B}' || c == '\u{000C}' || c == '\u{000D}'
        || c == '\u{0020}' || c == '\u{0085}' || c == '\u{00A0}' || c == '\u{1680}' || ('\u{2000}'
        <= c && c <= '\u{200A}') || c == '\u{2028}' || c == '\u{2029}' || c == '\u{202F}' || c
        == '\u{205F}' || c == '\u{3000}'
}

/// Number of leading whitespace characters.
pub open spec fn leading_ws(s: Seq<char>) -> int
    decreases s.len(),
{
    if s.len() == 0 {
        0
    } else if !is_space_char(s[0]) {
        0
    } else {
        1 + leading_ws(s.drop_first())
    }
}

/// Number of trailing whitespace characters.
pub open spec fn trailing_ws(s: Seq<char>) -> int
    decreases s.len(),
{
    if s.len() == 0 {
        0
    } else if !is_space_char(s.last()) {
        0
    } else {
        1 + trailing_ws(s.drop_last())
    }
}

/// The string with leading and trailing whitespace removed.
pub open spec fn trim_spec(s: Seq<char>) -> Seq<char> {
    if leading_ws(s) == s.len() {
        Seq::empty()
    } else {
        s.subrange(leading_ws(s), s.len() - trailing_ws(s))
    }
}

proof fn lemma_leading_ws(s: Seq<char>)
    ensures
        0 <= leading_ws(s) <= s.len(),
        forall|k: int| 0 <= k < leading_ws(s) ==> is_space_char(#[trigger] s[k]),
        leading_ws(s) < s.len() ==> !is_space_char(s[leading_ws(s)]),
    decreases s.len(),
{
    if s.len() == 0 {
    } else if !is_space_char(s[0]) {
    } else {
        let t = s.drop_first();
        lemma_leading_ws(t);
        assert(forall|k: int| 0 <= k < t.len() ==> #[trigger] t[k] == s[k + 1]);
        assert(forall|k: int|
            1 <= k < leading_ws(s) ==> is_space_char(#[trigger] s[k]) == is_space_char(t[k - 1]));
    }
}

proof fn lemma_trailing_ws(s: Seq<char>)
    ensures
        0 <= trailing_ws(s) <= s.len(),
        forall|k: int| s.len() - trailing_ws(s) <= k < s.len() ==> is_space_char(#[trigger] s[k]),
        trailing_ws(s) < s.len() ==> !is_space_char(s[s.len() - trailing_ws(s) - 1]),
    decreases s.len(),
{
    if s.len() == 0 {
    } else if !is_space_char(s.last()) {
    } else {
        let t = s.drop_last();
        lemma_trailing_ws(t);
        assert forall|k: int| s.len() - trailing_ws(s) <= k < s.len() implies is_space_char(
            #[trigger] s[k],
        ) by {
            if k < s.len() - 1 {
                assert(t[k] == s[k]);
                assert(is_space_char(t[k]));
            }
        }
        if trailing_ws(s) < s.len() {
            assert(s[s.len() - trailing_ws(s) - 1] == t[t.len() - trailing_ws(t) - 1]);
        }
    }
}

/// Removes leading and trailing whitespace, as `str::trim` does.
pub fn trim(s: &str) -> (r: String)
    ensures
        r@ == trim_spec(s@),
{
    let v = chars_vec(s);
    let n = v.len();
    proof {
        lemma_leading_ws(s@);
        lemma_trailing_ws(s@);
    }
    let mut i: usize = 0;
    while i < n && is_space(v[i])
        invariant
            n == s@.len(),
            v@ == s@,
            i <= n,
            forall|k: int| 0 <= k < i ==> is_space_char(#[trigger] s@[k]),
        decreases n - i,
    {
        i += 1;
    }
    proof {
        if i < leading_ws(s@) {
            assert(is_space_char(s@[i as int]));
            assert(i < n);
            assert(false);
        }
        if i > leading_ws(s@) {
            assert(is_space_char(s@[leading_ws(s@)]));
            assert(false);
        }
        assert(i == leading_ws(s@));
    }
    if i == n {
        let r = String::new();
        return r;
    }
    let mut j: usize = n;
    while j > i && is_space(v[j - 1])
        invariant
            n == s@.len(),
            v@ == s@,
            i < n,
            i <= j <= n,
            !is_space_char(s@[i as int]),
            forall|k: int| j <= k < n ==> is_space_char(#[trigger] s@[k]),
        decreases j,
    {
        j -= 1;
    }
    proof {
        let t = trailing_ws(s@);
        if j < n - t {
            assert(is_space_char(s@[j as int]));
            assert(j > i);
            assert(!is_space_char(s@[j - 1]));
            assert(t <= n - j);
            assert(false);
        }
        if j > n - t {
            assert(t < s@.len());
            assert(is_space_char(s@[n - t as int]) ==> true);
            assert(!is_space_char(s@[n - t - 1]));
            assert(j <= n - t);
            assert(false);
        }
        assert(j == n - trailing_ws(s@));
    }
    let piece = s.substring_char(i, j);
    piece.to_owned()
}

/// Do two strings spell the same characters?
pub fn str_eq(a: &str, b: &str) -> (r: bool)
    ensures
        r == (a@ == b@),
{
    let av = chars_vec(a);
    let r = chars_eq_str(&av, b);
    r
}

/// Is the string blank, i.e. does it trim to the empty string?
pub fn is_blank(s: &str) -> (r: bool)
    ensures
        r == (trim_spec(s@).len() == 0),
{
    let v = chars_vec(s);
    let n = v.len();
    proof {
        lemma_leading_ws(s@);
        lemma_trailing_ws(s@);
    }
    let mut i: usize = 0;
    while i < n && is_space(v[i])
        invariant
            n == s@.len(),
            v@ == s@,
            i <= n,
            forall|k: int| 0 <= k < i ==> is_space_char(#[trigger] s@[k]),
        decreases n - i,
    {
        i += 1;
    }
    if i == n {
        proof {
            if leading_ws(s@) < n {
                assert(is_space_char(s@[leading_ws(s@)]));
                assert(false);
            }
        }
        true
    } else {
        proof {
            let lead = leading_ws(s@);
            let trail = trailing_ws(s@);
            assert(!is_space_char(s@[i as int]));
            if i < lead {
                assert(is_space_char(s@[i as int]));
                assert(false);
            }
            assert(lead <= i < n);
            if n - trail <= i {
                assert(is_space_char(s@[i as int]));
                assert(false);
            }
            assert(trim_spec(s@).len() == n - trail - lead);
        }
        false
    }
}

/// The first index of `c` in `s` at or after `from`, or the length of `s`
/// if there is none.
pub open spec fn find_char_spec(s: Seq<char>, c: char, from: int) -> int
    decreases s.len() - from,
{
    if !(0 <= from < s.len()) {
        s.len() as int
    } else if s[from] == c {
        from
    } else {
        find_char_spec(s, c, from + 1)
    }
}

proof fn lemma_find_char(s: Seq<char>, c: char, from: int)
    requires
        0 <= from <= s.len(),
    ensures
        from <= find_char_spec(s, c, from) <= s.len(),
        forall|k: int| from <= k < find_char_spec(s, c, from) ==> s[k] != c,
        find_char_spec(s, c, from) < s.len() ==> s[find_char_spec(s, c, from)] == c,
    decreases s.len() - from,
{
    if !(0 <= from < s.len()) {
    } else if s[from] == c {
    } else {
        lemma_find_char(s, c, from + 1);
    }
}

/// Finds the first occurrence of `c` in `v` at or after `from`, or the
/// vector's length if there is none.
pub fn find_char(v: &Vec<char>, c: char, from: usize) -> (idx: usize)
    requires
        from <= v@.len(),
    ensures
        idx == find_char_spec(v@, c, from as int),
        from <= idx <= v@.len(),
{
    proof {
        lemma_find_char(v@, c, from as int);
    }
    let n = v.len();
    let mut i: usize = from;
    while i < n && v[i] != c
        invariant
            n == v@.len(),
            from <= i <= n,
            forall|k: int| from <= k < i ==> v@[k] != c,
        decreases n - i,
    {
        i += 1;
    }
    proof {
        let f = find_char_spec(v@, c, from as int);
        if i < f {
            assert(v@[i as int] != c);
            assert(i < n);
            assert(false);
        }
        if i > f {
            assert(f < n);
            assert(v@[f] == c);
            assert(false);
        }
    }
    i
}

/// An ASCII decimal digit.
pub open spec fn is_dec_digit(c: char) -> bool {
    '0' <= c && c <= '9'
}

/// The numeric value of an ASCII decimal digit.
pub open spec fn digit_val(c: char) -> int {
    c as int - 48
}

/// Every character of the sequence is an ASCII decimal digit.
pub open spec fn all_dec_digits(s: Seq<char>) -> bool {
    forall|i: int| 0 <= i < s.len() ==> is_dec_digit(#[trigger] s[i])
}

/// The value of a most-significant-first decimal digit string.
pub open spec fn digits_val(s: Seq<char>) -> int
    decreases s.len(),
{
    if s.len() == 0 {
        0
    } else {
        digits_val(s.drop_last()) * 10 + digit_val(s.last())
    }
}

/// What `str::parse` to an unsigned integer accepts, before any range
/// check: an optional leading `+`, then one or more decimal digits.
pub open spec fn parse_uint_spec(s: Seq<char>) -> Option<int> {
    let body = if s.len() >= 1 && s[0] == '+' {
        s.drop_first()
    } else {
        s
    };
    if body.len() >= 1 && all_dec_digits(body) {
        Some(digits_val(body))
    } else {
        None
    }
}

proof fn lemma_digits_val_bounds(s: Seq<char>)
    requires
        all_dec_digits(s),
    ensures
        digits_val(s) >= 0,
        forall|k: int| 0 <= k <= s.len() ==> digits_val(#[trigger] s.take(k)) <= digits_val(s),
    decreases s.len(),
{
    if s.len() == 0 {
        assert(s.take(0) =~= s);
    } else {
        let t = s.drop_last();
        assert(forall|i: int| 0 <= i < t.len() ==> #[trigger] t[i] == s[i]);
        lemma_digits_val_bounds(t);
        assert(digit_val(s.last()) >= 0);
        assert(digits_val(s) >= digits_val(t) * 10 >= digits_val(t)) by (nonlinear_arith)
            requires
                digits_val(s) == digits_val(t) * 10 + digit_val(s.last()),
                digits_val(t) >= 0,
                digit_val(s.last()) >= 0,
        ;
        assert forall|k: int| 0 <= k <= s.len() implies digits_val(#[trigger] s.take(k))
            <= digits_val(s) by {
            if k == s.len() {
                assert(s.take(k) =~= s);
            } else {
                assert(s.take(k) =~= t.take(k));
            }
        }
    }
}

/// Parses the digit span `v[from..to]` as `str::parse::<u64>` would parse
/// that substring: `None` both for malformed text and for values that do
/// not fit in a `u64`.
pub fn parse_u64_span(v: &Vec<char>, from: usize, to: usize) -> (r: Option<u64>)
    requires
        from <= to <= v@.len(),
    ensures
        match r {
            Some(value) => parse_uint_spec(v@.subrange(from as int, to as int)) == Some(
                value as int,
            ),
            None => ({
                let p = parse_uint_spec(v@.subrange(from as int, to as int));
                p is None || p->Some_0 > u64::MAX
            }),
        },
{
    let ghost whole = v@.subrange(from as int, to as int);
    let mut start: usize = from;
    if start < to && v[start] == '+' {
        start += 1;
    }
    let ghost body = if whole.len() >= 1 && whole[0] == '+' {
        whole.drop_first()
    } else {
        whole
    };
    proof {
        assert(body =~= v@.subrange(start as int, to as int));
    }
    if start == to {
        return None;
    }
    let mut acc: u64 = 0;
    let mut k: usize = start;
    proof {
        assert(body.len() >= 1);
    }
    while k < to
        invariant
            from <= start <= k <= to <= v@.len(),
            start < to,
            whole == v@.subrange(from as int, to as int),
            body == v@.subrange(start as int, to as int),
            parse_uint_spec(whole) == (if all_dec_digits(body) {
                Some(digits_val(body))
            } else {
                None::<int>
            }),
            all_dec_digits(body.take(k - start)),
            acc == digits_val(body.take(k - start)),
        decreases to - k,
    {
        let c = v[k];
        if !(('0' <= c) && (c <= '9')) {
            proof {
                assert(body[k - start] == c);
                assert(!all_dec_digits(body));
            }
            return None;
        }
        let d = (c as u32) - 48;
        proof {
            assert(body[k - start] == c);
            assert(d == digit_val(c));
            assert(body.take(k - start + 1) =~= body.take(k - start).push(c));
            assert(body.take(k - start + 1).drop_last() =~= body.take(k - start));
        }
        if acc > (u64::MAX - (d as u64)) / 10 {
            proof {
                let g = body.take(k - start + 1);
                assert(digits_val(g) == acc * 10 + d);
                assert(acc * 10 + d > u64::MAX) by (nonlinear_arith)
                    requires
                        acc > (u64::MAX - (d as u64)) / 10,
                        0 <= d < 10,
                        acc >= 0,
                ;
                if all_dec_digits(body) {
                    lemma_digits_val_bounds(body);
                    assert(digits_val(body) >= digits_val(g));
                }
            }
            return None;
        }
        proof {
            assert(acc * 10 + d <= u64::MAX) by (nonlinear_arith)
                requires
                    acc <= (u64::MAX - (d as u64)) / 10,
                    0 <= d < 10,
                    acc >= 0,
            ;
        }
        acc = acc * 10 + (d as u64);
        k += 1;
    }
    proof {
        assert(body.take(to - start) =~= body);
    }
    Some(acc)
}

/// The offset basis of the 64-bit FNV-1a hash.
pub const FNV_OFFSET_BASIS: u64 = 0xcbf29ce484222325;

/// The prime of the 64-bit FNV-1a hash.
pub const FNV_PRIME: u64 = 0x100000001b3;

/// One step of FNV-1a: fold a byte into the running hash.
pub open spec fn fnv1a_step(h: u64, b: u8) -> u64 {
    (h ^ (b as u64)).wrapping_mul(FNV_PRIME)
}

/// The 64-bit FNV-1a hash of a byte sequence.
pub open spec fn fnv1a_spec(bytes: Seq<u8>) -> u64
    decreases bytes.len(),
{
    if bytes.len() == 0 {
        FNV_OFFSET_BASIS
    } else {
        fnv1a_step(fnv1a_spec(bytes.drop_last()), bytes.last())
    }
}

/// Computes the 64-bit FNV-1a hash of the given bytes.
pub fn fnv1a(bytes: &[u8]) -> (h: u64)
    ensures
        h == fnv1a_spec(bytes@),
{
    let n = bytes.len();
    let mut h: u64 = FNV_OFFSET_BASIS;
    let mut i: usize = 0;
    while i < n
        invariant
            n == bytes@.len(),
            i <= n,
            h == fnv1a_spec(bytes@.take(i as int)),
        decreases n - i,
    {
        let b = bytes[i];
        h = (h ^ (b as u64)).wrapping_mul(FNV_PRIME);
        proof {
            assert(bytes@.take(i + 1).drop_last() =~= bytes@.take(i as int));
            assert(bytes@.take(i + 1).last() == b);
        }
        i += 1;
    }
    proof {
        assert(bytes@.take(n as int) =~= bytes@);
    }
    h
}

/// A line segment with one trailing carriage return removed.
pub open spec fn strip_cr(x: Seq<char>) -> Seq<char> {
    if x.len() > 0 && x.last() == '\r' {
        x.drop_last()
    } else {
        x
    }
}

/// The lines of the text from offset `from` on, split at newlines, each
/// stripped of one trailing carriage return, as `str::lines` yields them.
pub open spec fn split_lines_from(s: Seq<char>, from: int) -> Seq<Seq<char>>
    decreases s.len() - from,
    via split_lines_from_decreases
{
    if !(0 <= from < s.len()) {
        Seq::empty()
    } else {
        let p = find_char_spec(s, '\n', from);
        if p == s.len() {
            seq![strip_cr(s.subrange(from, p))]
        } else {
            seq![strip_cr(s.subrange(from, p))] + split_lines_from(s, p + 1)
        }
    }
}

#[via_fn]
proof fn split_lines_from_decreases(s: Seq<char>, from: int) {
    if 0 <= from < s.len() {
        lemma_find_char(s, '\n', from);
    }
}

/// Splits the text into lines, as `str::lines` does: terminated or ended
/// by `\n`, with one trailing `\r` stripped from each line.
pub fn split_lines(s: &str) -> (r: Vec<String>)
    ensures
        r@.map_values(|x: String| x@) == split_lines_from(s@, 0),
{
    let v = chars_vec(s);
    let n = v.len();
    let mut out: Vec<String> = Vec::new();
    proof {
        assert(out@.map_values(|x: String| x@) =~= Seq::<Seq<char>>::empty());
    }
    let mut start: usize = 0;
    while start < n
        invariant
            n == s@.len(),
            v@ == s@,
            split_lines_from(s@, 0) == out@.map_values(|x: String| x@) + split_lines_from(
                s@,
                start as int,
            ),
        decreases n - start,
    {
        let p = find_char(&v, '\n', start);
        let seg_end = if p > start && v[p - 1] == '\r' {
            p - 1
        } else {
            p
        };
        let piece = s.substring_char(start, seg_end).to_owned();
        proof {
            assert(piece@ =~= strip_cr(s@.subrange(start as int, p as int)));
        }
        out.push(piece);
        let next = if p == n {
            n
        } else {
            p + 1
        };
        proof {
            let f = |x: String| x@;
            assert(out@.map_values(f) =~= old_map_push(out@, f));
            if p == n {
                assert(split_lines_from(s@, start as int) =~= seq![
                    strip_cr(s@.subrange(start as int, p as int)),
                ]);
                assert(split_lines_from(s@, next as int) =~= Seq::<Seq<char>>::empty());
            }
            assert(split_lines_from(s@, 0) =~= out@.map_values(f) + split_lines_from(
                s@,
                next as int,
            ));
        }
        start = next;
    }
    out
}

/// The map of a pushed sequence: the map of the original with the image
/// of the new last element appended.
spec fn old_map_push(v: Seq<String>, f: spec_fn(String) -> Seq<char>) -> Seq<Seq<char>> {
    v.drop_last().map_values(f).push(f(v.last()))
}

/// The ASCII byte of a decimal digit value.
pub open spec fn dec_byte(d: int) -> u8 {
    (48 + d) as u8
}

/// The ASCII bytes of a number written in decimal, most significant digit
/// first.
pub open spec fn dec_bytes_rep(n: nat) -> Seq<u8>
    decreases n,
{
    if n < 10 {
        seq![dec_byte(n as int)]
    } else {
        dec_bytes_rep(n / 10) + seq![dec_byte((n % 10) as int)]
    }
}

/// Appends the decimal representation of `n` to `out`.
pub fn push_dec_bytes(out: &mut Vec<u8>, n: u64)
    ensures
        final(out)@ == old(out)@ + dec_bytes_rep(n as nat),
    decreases n,
{
    if n >= 10 {
        push_dec_bytes(out, n / 10);
    }
    let d = (n % 10) as u8;
    out.push(48 + d);
    proof {
        if n >= 10 {
            assert(out@ =~= old(out)@ + dec_bytes_rep(n as nat));
        } else {
            assert(out@ =~= old(out)@ + dec_bytes_rep(n as nat));
        }
    }
}

/// The lower-case hexadecimal digit character for a value below 16.
pub open spec fn hex_char(d: int) -> char {
    if d < 10 {
        (48 + d) as char
    } else {
        (87 + d) as char
    }
}

/// The hexadecimal representation of a number, most significant digit
/// first, lower case, no leading zeros.
pub open spec fn hex_rep(n: nat) -> Seq<char>
    decreases n,
{
    if n < 16 {
        seq![hex_char(n as int)]
    } else {
        hex_rep(n / 16) + seq![hex_char((n % 16) as int)]
    }
}

/// Appends one hexadecimal digit character to a string.
pub fn append_hex_digit(out: &mut String, d: u8)
    requires
        d < 16,
    ensures
        final(out)@ == old(out)@ + seq![hex_char(d as int)],
{
    proof {
        reveal_strlit("0");
        reveal_strlit("1");
        reveal_strlit("2");
        reveal_strlit("3");
        reveal_strlit("4");
        reveal_strlit("5");
        reveal_strlit("6");
        reveal_strlit("7");
        reveal_strlit("8");
        reveal_strlit("9");
        reveal_strlit("a");
        reveal_strlit("b");
        reveal_strlit("c");
        reveal_strlit("d");
        reveal_strlit("e");
        reveal_strlit("f");
    }
    match d {
        0 => out.append("0"),
        1 => out.append("1"),
        2 => out.append("2"),
        3 => out.append("3"),
        4 => out.append("4"),
        5 => out.append("5"),
        6 => out.append("6"),
        7 => out.append("7"),
        8 => out.append("8"),
        9 => out.append("9"),
        10 => out.append("a"),
        11 => out.append("b"),
        12 => out.append("c"),
        13 => out.append("d"),
        14 => out.append("e"),
        _ => out.append("f"),
    }
}

/// The decimal representation of a number as characters, most
/// significant digit first.
pub open spec fn dec_rep(n: nat) -> Seq<char>
    decreases n,
{
    if n < 10 {
        seq![hex_char(n as int)]
    } else {
        dec_rep(n / 10) + seq![hex_char((n % 10) as int)]
    }
}

/// Appends the decimal representation of `n` to `out`.
pub fn push_dec_u64(out: &mut String, n: u64)
    ensures
        final(out)@ == old(out)@ + dec_rep(n as nat),
    decreases n,
{
    if n >= 10 {
        push_dec_u64(out, n / 10);
    }
    append_hex_digit(out, (n % 10) as u8);
    proof {
        if n >= 10 {
            assert(final(out)@ =~= old(out)@ + dec_rep(n as nat));
        } else {
            assert(final(out)@ =~= old(out)@ + dec_rep(n as nat));
        }
    }
}

/// Appends the hexadecimal representation of `n` to `out`.
pub fn push_hex_u64(out: &mut String, n: u64)
    ensures
        final(out)@ == old(out)@ + hex_rep(n as nat),
    decreases n,
{
    if n >= 16 {
        push_hex_u64(out, n / 16);
    }
    append_hex_digit(out, (n % 16) as u8);
    proof {
        if n >= 16 {
            assert(out@ =~= old(out)@ + hex_rep(n as nat));
        } else {
            assert(out@ =~= old(out)@ + hex_rep(n as nat));
        }
    }
}

} // verus!
