//! Character-level scanning shared by the console grammar: white space,
//! words, trimming, ASCII case folding, decimal digits and quote removal.
use vstd::prelude::*;
use vstd::string::*;

verus! {

/// Unicode `White_Space`, the set that `str::trim` and `split_whitespace` use.
pub open spec fn is_space(c: char) -> bool {
    let u = c as u32;
    u == 0x20 || (0x09 <= u && u <= 0x0d) || u == 0x85 || u == 0xa0 || u == 0x1680 || (0x2000
        <= u && u <= 0x200a) || u == 0x2028 || u == 0x2029 || u == 0x202f || u == 0x205f || u
        == 0x3000
}

/// First index at or after `i` that does not hold white space.
pub open spec fn skip_spaces(s: Seq<char>, i: int) -> int
    decreases s.len() - i,
{
    if 0 <= i < s.len() && is_space(s[i]) {
        skip_spaces(s, i + 1)
    } else {
        i
    }
}

/// End of the word that starts at `i`: the first white space at or after `i`.
pub open spec fn word_end(s: Seq<char>, i: int) -> int
    decreases s.len() - i,
{
    if 0 <= i < s.len() && !is_space(s[i]) {
        word_end(s, i + 1)
    } else {
        i
    }
}

/// `hi` moved back over the white space that ends `s[lo..hi]`.
pub open spec fn trim_end(s: Seq<char>, lo: int, hi: int) -> int
    decreases hi - lo,
{
    if lo < hi && is_space(s[hi - 1]) {
        trim_end(s, lo, hi - 1)
    } else {
        hi
    }
}

/// `s` without leading and trailing white space.
pub open spec fn trimmed(s: Seq<char>) -> Seq<char> {
    let a = skip_spaces(s, 0);
    s.subrange(a, trim_end(s, a, s.len() as int))
}

/// First index at or after `i` that holds `c`, or the length of `s`.
pub open spec fn find_char(s: Seq<char>, c: char, i: int) -> int
    decreases s.len() - i,
{
    if 0 <= i < s.len() {
        if s[i] == c {
            i
        } else {
            find_char(s, c, i + 1)
        }
    } else {
        s.len() as int
    }
}

/// `c` equals the lower-case keyword character `k`, ignoring ASCII case.
pub open spec fn same_ignoring_case(c: char, k: char) -> bool {
    c == k || (97 <= (k as u32) && (k as u32) <= 122 && (c as u32) == (k as u32) - 32)
}

/// `t` begins with the keyword `kw`, ignoring ASCII case.
pub open spec fn starts_with_keyword(t: Seq<char>, kw: Seq<char>) -> bool {
    kw.len() <= t.len() && forall|i: int| 0 <= i < kw.len() ==> same_ignoring_case(t[i], kw[i])
}

/// `t` is the keyword `kw`, ignoring ASCII case.
pub open spec fn is_keyword(t: Seq<char>, kw: Seq<char>) -> bool {
    t.len() == kw.len() && starts_with_keyword(t, kw)
}

pub open spec fn is_digit(c: char) -> bool {
    48 <= (c as u32) && (c as u32) <= 57
}

pub open spec fn all_digits(s: Seq<char>) -> bool {
    forall|i: int| 0 <= i < s.len() ==> is_digit(s[i])
}

/// The number that a string of decimal digits writes.
pub open spec fn digits_value(s: Seq<char>) -> nat
    decreases s.len(),
{
    if s.len() == 0 {
        0
    } else {
        digits_value(s.drop_last()) * 10 + ((s.last() as u32) - 48) as nat
    }
}

/// `s` with every double quote removed.
pub open spec fn strip_quotes(s: Seq<char>) -> Seq<char>
    decreases s.len(),
{
    if s.len() == 0 {
        s
    } else if s.last() == '"' {
        strip_quotes(s.drop_last())
    } else {
        strip_quotes(s.drop_last()).push(s.last())
    }
}

/// A longer string of digits never writes a smaller number.
pub proof fn lemma_digits_value_prefix(s: Seq<char>, k: int)
    requires
        all_digits(s),
        0 <= k <= s.len(),
    ensures
        digits_value(s.subrange(0, k)) <= digits_value(s),
    decreases s.len() - k,
{
    if k < s.len() {
        let longer = s.subrange(0, k + 1);
        assert(longer.drop_last() =~= s.subrange(0, k));
        assert(is_digit(longer.last()));
        lemma_digits_value_prefix(s, k + 1);
    } else {
        assert(s.subrange(0, k) =~= s);
    }
}

pub fn is_space_char(c: char) -> (r: bool)
    ensures
        r == is_space(c),
{
    let u = c as u32;
    u == 0x20 || (0x09 <= u && u <= 0x0d) || u == 0x85 || u == 0xa0 || u == 0x1680 || (0x2000
        <= u && u <= 0x200a) || u == 0x2028 || u == 0x2029 || u == 0x202f || u == 0x205f || u
        == 0x3000
}

pub fn same_ignoring_case_char(c: char, k: char) -> (r: bool)
    ensures
        r == same_ignoring_case(c, k),
{
    let cu = c as u32;
    let ku = k as u32;
    c == k || (97 <= ku && ku <= 122 && cu == ku - 32)
}

/// The characters of `s`, one per element.
pub fn chars_of(s: &str) -> (r: Vec<char>)
    ensures
        r@ == s@,
{
    let n = s.unicode_len();
    let mut v: Vec<char> = Vec::new();
    let mut i: usize = 0;
    while i < n
        invariant
            n == s@.len(),
            i <= n,
            v@ == s@.subrange(0, i as int),
        decreases n - i,
    {
        v.push(s.get_char(i));
        i += 1;
        assert(v@ =~= s@.subrange(0, i as int));
    }
    assert(v@ =~= s@);
    v
}

pub fn skip_spaces_from(s: &Vec<char>, i: usize) -> (r: usize)
    requires
        i <= s.len(),
    ensures
        i <= r <= s.len(),
        r == skip_spaces(s@, i as int),
{
    let mut j = i;
    while j < s.len() && is_space_char(s[j])
        invariant
            i <= j <= s.len(),
            skip_spaces(s@, j as int) == skip_spaces(s@, i as int),
        decreases s.len() - j,
    {
        j += 1;
    }
    j
}

pub fn word_end_from(s: &Vec<char>, i: usize) -> (r: usize)
    requires
        i <= s.len(),
    ensures
        i <= r <= s.len(),
        r == word_end(s@, i as int),
{
    let mut j = i;
    while j < s.len() && !is_space_char(s[j])
        invariant
            i <= j <= s.len(),
            word_end(s@, j as int) == word_end(s@, i as int),
        decreases s.len() - j,
    {
        j += 1;
    }
    j
}

pub fn trim_end_from(s: &Vec<char>, lo: usize, hi: usize) -> (r: usize)
    requires
        lo <= hi <= s.len(),
    ensures
        lo <= r <= hi,
        r == trim_end(s@, lo as int, hi as int),
{
    let mut j = hi;
    while j > lo && is_space_char(s[j - 1])
        invariant
            lo <= j <= hi,
            hi <= s.len(),
            trim_end(s@, lo as int, j as int) == trim_end(s@, lo as int, hi as int),
        decreases j,
    {
        j -= 1;
    }
    j
}

pub fn find_char_from(s: &Vec<char>, c: char, i: usize) -> (r: usize)
    requires
        i <= s.len(),
    ensures
        i <= r <= s.len(),
        r == find_char(s@, c, i as int),
{
    let mut j = i;
    while j < s.len() && s[j] != c
        invariant
            i <= j <= s.len(),
            find_char(s@, c, j as int) == find_char(s@, c, i as int),
        decreases s.len() - j,
    {
        j += 1;
    }
    j
}

pub fn starts_with_keyword_exec(t: &Vec<char>, kw: &Vec<char>) -> (r: bool)
    ensures
        r == starts_with_keyword(t@, kw@),
{
    if kw.len() > t.len() {
        return false;
    }
    let mut i: usize = 0;
    while i < kw.len()
        invariant
            i <= kw.len() <= t.len(),
            forall|k: int| 0 <= k < i ==> same_ignoring_case(t@[k], kw@[k]),
        decreases kw.len() - i,
    {
        if !same_ignoring_case_char(t[i], kw[i]) {
            return false;
        }
        i += 1;
    }
    true
}

/// `s` without leading and trailing white space.
pub fn trim_text(s: &str) -> (r: &str)
    ensures
        r@ == trimmed(s@),
{
    let chars = chars_of(s);
    let a = skip_spaces_from(&chars, 0);
    let b = trim_end_from(&chars, a, chars.len());
    s.substring_char(a, b)
}

/// `text[a..b]` with its double quotes removed.
pub fn unquoted(text: &str, t: &Vec<char>, a: usize, b: usize) -> (r: String)
    requires
        t@ == text@,
        a <= b <= t.len(),
    ensures
        r@ == strip_quotes(t@.subrange(a as int, b as int)),
{
    let mut out = String::new();
    let mut k = a;
    while k < b
        invariant
            t@ == text@,
            a <= k <= b <= t.len(),
            out@ == strip_quotes(t@.subrange(a as int, k as int)),
        decreases b - k,
    {
        let ghost before = t@.subrange(a as int, k as int);
        assert(t@.subrange(a as int, k + 1).drop_last() =~= before);
        if t[k] != '"' {
            let piece = text.substring_char(k, k + 1);
            assert(piece@ =~= seq![t@[k as int]]);
            out.append(piece);
            assert(out@ =~= strip_quotes(before).push(t@[k as int]));
        }
        k += 1;
    }
    out
}

} // verus!
