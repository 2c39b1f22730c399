//! Character sequences: the predicates and searches that the rest of the
//! crate states its contracts with, and executable counterparts proved
//! against them.

use vstd::prelude::*;
use vstd::string::{StringExecFns, StringSliceAdditionalSpecFns};
use vstd::utf8::{encode_utf8, is_char_boundary};

verus! {

/// Whether `c` has Unicode's `White_Space` property: the controls from
/// tab to carriage return, the space, the next-line control, the
/// no-break space, the ogham space mark, the spaces from en quad to hair
/// space, the line and paragraph separators, the narrow no-break space,
/// the medium mathematical space and the ideographic space.
pub open spec fn white_space(c: char) -> bool {
    ||| '\u{9}' <= c <= '\u{d}'
    ||| c == ' '
    ||| c == '\u{85}'
    ||| c == '\u{a0}'
    ||| c == '\u{1680}'
    ||| '\u{2000}' <= c <= '\u{200a}'
    ||| c == '\u{2028}'
    ||| c == '\u{2029}'
    ||| c == '\u{202f}'
    ||| c == '\u{205f}'
    ||| c == '\u{3000}'
}

/// Whether `c`, a character beyond ASCII, is alphabetic or numeric in
/// Unicode's sense.
pub uninterp spec fn alphanumeric_beyond_ascii(c: char) -> bool;

/// Whether `c` is alphabetic or numeric in Unicode's sense. Of the ASCII
/// characters the letters and the digits are, and no other.
pub open spec fn alphanumeric(c: char) -> bool {
    if c <= '\u{7f}' {
        ('a' <= c <= 'z') || ('A' <= c <= 'Z') || ('0' <= c <= '9')
    } else {
        alphanumeric_beyond_ascii(c)
    }
}

/// The lowercase equivalent of `s` under Unicode's `Lowercase` mapping.
pub uninterp spec fn lowercase(s: Seq<char>) -> Seq<char>;

/// `char::is_whitespace` decides the `White_Space` property, which is
/// the list of characters that `white_space` states.
pub assume_specification[ char::is_whitespace ](c: char) -> (b: bool)
    ensures
        b == white_space(c),
;

/// `char::is_alphanumeric` says whether a character is alphabetic or
/// numeric: for an ASCII character, whether it is a letter or a digit;
/// for any other, `alphanumeric_beyond_ascii` of it.
pub assume_specification[ char::is_alphanumeric ](c: char) -> (b: bool)
    ensures
        c <= '\u{7f}' ==> b == (('a' <= c <= 'z') || ('A' <= c <= 'Z') || ('0' <= c <= '9')),
        c > '\u{7f}' ==> b == alphanumeric_beyond_ascii(c),
;

/// `str::to_lowercase` returns a new string; its characters are
/// `lowercase` of the characters of the argument.
pub assume_specification[ str::to_lowercase ](s: &str) -> (r: String)
    ensures
        r@ == lowercase(s@),
;

/// `c` with the ASCII letters `A` to `Z` mapped to `a` to `z`.
pub open spec fn ascii_lower(c: char) -> char {
    if 'A' <= c <= 'Z' {
        ((c as u32) + 32) as char
    } else {
        c
    }
}

/// `char::to_ascii_lowercase` maps `A`..`Z` to `a`..`z` and leaves every
/// other character as it is.
pub assume_specification[ char::to_ascii_lowercase ](c: &char) -> (r: char)
    ensures
        r == ascii_lower(*c),
;

/// `s` without its leading whitespace.
pub open spec fn trim_start(s: Seq<char>) -> Seq<char>
    decreases s.len(),
{
    if s.len() > 0 && white_space(s[0]) {
        trim_start(s.drop_first())
    } else {
        s
    }
}

/// `s` without its trailing whitespace.
pub open spec fn trim_end(s: Seq<char>) -> Seq<char>
    decreases s.len(),
{
    if s.len() > 0 && white_space(s.last()) {
        trim_end(s.drop_last())
    } else {
        s
    }
}

/// `s` without leading and trailing whitespace.
pub open spec fn trimmed(s: Seq<char>) -> Seq<char> {
    trim_end(trim_start(s))
}

/// Every character of `s` is whitespace (so also: `s` is empty).
pub open spec fn is_blank(s: Seq<char>) -> bool {
    forall|i: int| 0 <= i < s.len() ==> white_space(#[trigger] s[i])
}

/// `needle` occurs in `hay` starting at index `i`.
pub open spec fn occurs_at(hay: Seq<char>, needle: Seq<char>, i: int) -> bool {
    &&& 0 <= i
    &&& i + needle.len() <= hay.len()
    &&& hay.subrange(i, i + needle.len()) == needle
}

/// `needle` is a contiguous part of `hay`.
pub open spec fn contains(hay: Seq<char>, needle: Seq<char>) -> bool {
    exists|i: int| occurs_at(hay, needle, i)
}

/// Length of the longest prefix of `s` that holds no whitespace.
pub open spec fn word_len(s: Seq<char>) -> nat
    decreases s.len(),
{
    if s.len() > 0 && !white_space(s[0]) {
        1 + word_len(s.drop_first())
    } else {
        0
    }
}

/// The first word of `s` is within `s`, holds no whitespace, and ends at
/// whitespace or at the end of `s`.
pub proof fn lemma_word_len_bounds(s: Seq<char>)
    ensures
        word_len(s) <= s.len(),
        s.len() > 0 && !white_space(s[0]) ==> word_len(s) >= 1,
        forall|i: int| 0 <= i < word_len(s) ==> !white_space(#[trigger] s[i]),
        word_len(s) < s.len() ==> white_space(s[word_len(s) as int]),
    decreases s.len(),
{
    if s.len() > 0 && !white_space(s[0]) {
        let t = s.drop_first();
        lemma_word_len_bounds(t);
        assert forall|i: int| 0 <= i < word_len(s) implies !white_space(#[trigger] s[i]) by {
            if i > 0 {
                assert(s[i] == t[i - 1]);
            }
        }
        if word_len(s) < s.len() {
            assert(s[word_len(s) as int] == t[word_len(t) as int]);
        }
    }
}

/// The maximal whitespace-free runs of `s`, in order.
pub open spec fn words(s: Seq<char>) -> Seq<Seq<char>>
    decreases s.len(),
{
    if s.len() == 0 {
        Seq::empty()
    } else if white_space(s[0]) {
        words(s.drop_first())
    } else {
        proof {
            lemma_word_len_bounds(s);
        }
        seq![s.take(word_len(s) as int)] + words(s.skip(word_len(s) as int))
    }
}

/// `a` and `b` are equal once ASCII letters are put in lower case.
pub open spec fn eq_ignore_ascii_case(a: Seq<char>, b: Seq<char>) -> bool {
    &&& a.len() == b.len()
    &&& forall|i: int| 0 <= i < a.len() ==> ascii_lower(#[trigger] a[i]) == ascii_lower(b[i])
}

/// Every character of `s` is one of `0` to `9`.
pub open spec fn all_ascii_digits(s: Seq<char>) -> bool {
    forall|i: int| 0 <= i < s.len() ==> '0' <= #[trigger] s[i] <= '9'
}

/// Some character of `s` is alphanumeric.
pub open spec fn has_alphanumeric(s: Seq<char>) -> bool {
    exists|i: int| 0 <= i < s.len() && alphanumeric(#[trigger] s[i])
}

/// Index of the first line feed of `s`, or its length where it has none.
pub open spec fn line_end(s: Seq<char>) -> nat
    decreases s.len(),
{
    if s.len() > 0 && s[0] != '\n' {
        1 + line_end(s.drop_first())
    } else {
        0
    }
}

/// The first line of `s`, without its line ending (`\n` or `\r\n`); the
/// empty sequence where `s` is empty.
pub open spec fn first_line(s: Seq<char>) -> Seq<char> {
    let k = line_end(s) as int;
    if 0 < k < s.len() && s[k - 1] == '\r' {
        s.take(k - 1)
    } else {
        s.take(k)
    }
}

/// Where the first `a` characters of `s` are whitespace and the next is
/// not, `s` without its leading whitespace is `s` from `a` on.
pub proof fn lemma_trim_start(s: Seq<char>, a: int)
    requires
        0 <= a <= s.len(),
        forall|i: int| 0 <= i < a ==> white_space(#[trigger] s[i]),
        a < s.len() ==> !white_space(s[a]),
    ensures
        trim_start(s) == s.skip(a),
    decreases a,
{
    if a == 0 {
        assert(s.skip(0) =~= s);
    } else {
        let t = s.drop_first();
        assert forall|i: int| 0 <= i < a - 1 implies white_space(#[trigger] t[i]) by {
            assert(t[i] == s[i + 1]);
        }
        lemma_trim_start(t, a - 1);
        assert(t.skip(a - 1) =~= s.skip(a));
    }
}

/// Where the characters of `s` from `b` on are whitespace and the one
/// before is not, `s` without its trailing whitespace is `s` up to `b`.
pub proof fn lemma_trim_end(s: Seq<char>, b: int)
    requires
        0 <= b <= s.len(),
        forall|i: int| b <= i < s.len() ==> white_space(#[trigger] s[i]),
        b > 0 ==> !white_space(s[b - 1]),
    ensures
        trim_end(s) == s.take(b),
    decreases s.len() - b,
{
    if b == s.len() {
        assert(s.take(b) =~= s);
    } else {
        let t = s.drop_last();
        assert forall|i: int| b <= i < t.len() implies white_space(#[trigger] t[i]) by {
            assert(t[i] == s[i]);
        }
        lemma_trim_end(t, b);
        assert(t.take(b) =~= s.take(b));
    }
}

/// The characters of `s`, one by one.
pub fn chars_of(s: &str) -> (v: Vec<char>)
    ensures
        v@ == s@,
{
    let mut v: Vec<char> = Vec::new();
    for c in it: s.chars()
        invariant
            v@ == it.seq().subrange(0, it.index() as int),
            it.seq() == s@,
    {
        v.push(c);
    }
    assert(v@ =~= s@);
    v
}

/// Where the trimmed part of `cs` begins and ends.
pub fn trim_bounds(cs: &Vec<char>) -> (r: (usize, usize))
    ensures
        r.0 <= r.1 <= cs.len(),
        cs@.subrange(r.0 as int, r.1 as int) == trimmed(cs@),
        r.0 == r.1 <==> is_blank(cs@),
{
    let n = cs.len();
    let mut a: usize = 0;
    while a < n && cs[a].is_whitespace()
        invariant
            a <= n,
            n == cs.len(),
            forall|i: int| 0 <= i < a ==> white_space(#[trigger] cs@[i]),
        decreases n - a,
    {
        a += 1;
    }
    let mut b: usize = n;
    while b > a && cs[b - 1].is_whitespace()
        invariant
            a <= b <= n,
            n == cs.len(),
            forall|i: int| b <= i < n ==> white_space(#[trigger] cs@[i]),
        decreases b,
    {
        b -= 1;
    }
    proof {
        let s = cs@;
        lemma_trim_start(s, a as int);
        let t = s.skip(a as int);
        assert forall|i: int| b - a <= i < t.len() implies white_space(#[trigger] t[i]) by {
            assert(t[i] == s[i + a]);
        }
        if b > a {
            assert(t[b - a - 1] == s[b - 1]);
        }
        lemma_trim_end(t, b - a);
        assert(t.take(b - a) =~= s.subrange(a as int, b as int));
        if a == b {
            assert forall|i: int| 0 <= i < s.len() implies white_space(#[trigger] s[i]) by {
                if i >= a {
                    assert(b <= i < n);
                }
            }
        } else {
            assert(!white_space(s[a as int]));
        }
    }
    (a, b)
}

/// Whether `needle` occurs in `hay` at index `i`.
pub fn occurs_at_index(hay: &Vec<char>, needle: &Vec<char>, i: usize) -> (r: bool)
    requires
        i + needle.len() <= hay.len(),
    ensures
        r == occurs_at(hay@, needle@, i as int),
{
    let m = needle.len();
    let mut k: usize = 0;
    while k < m
        invariant
            k <= m,
            m == needle.len(),
            i + m <= hay.len(),
            forall|j: int| 0 <= j < k ==> hay@[i + j] == needle@[j],
        decreases m - k,
    {
        if hay[i + k] != needle[k] {
            proof {
                let part = hay@.subrange(i as int, i + m);
                assert(part[k as int] == hay@[i + k]);
            }
            return false;
        }
        k += 1;
    }
    assert(hay@.subrange(i as int, i + m) =~= needle@);
    true
}

/// Whether `needle` is a contiguous part of `hay`.
pub fn contains_chars(hay: &Vec<char>, needle: &Vec<char>) -> (r: bool)
    ensures
        r == contains(hay@, needle@),
{
    let n = hay.len();
    let m = needle.len();
    if m > n {
        return false;
    }
    let last = n - m;
    let mut i: usize = 0;
    while i < last
        invariant
            i <= last,
            last == n - m,
            n == hay.len(),
            m == needle.len(),
            forall|j: int| 0 <= j < i ==> !occurs_at(hay@, needle@, j),
        decreases last - i,
    {
        if occurs_at_index(hay, needle, i) {
            return true;
        }
        i += 1;
    }
    occurs_at_index(hay, needle, last)
}

/// Whether two strings hold the same characters.
pub fn str_eq(a: &str, b: &str) -> (r: bool)
    ensures
        r == (a@ == b@),
{
    let x = chars_of(a);
    let y = chars_of(b);
    if x.len() != y.len() {
        return false;
    }
    let r = occurs_at_index(&x, &y, 0);
    proof {
        assert(x@.subrange(0, x@.len() as int) =~= x@);
    }
    r
}

/// The characters of `cs` from index `lo` up to `hi`.
pub fn slice_chars(cs: &Vec<char>, lo: usize, hi: usize) -> (r: Vec<char>)
    requires
        lo <= hi <= cs.len(),
    ensures
        r@ == cs@.subrange(lo as int, hi as int),
{
    let mut r: Vec<char> = Vec::new();
    let mut i: usize = lo;
    while i < hi
        invariant
            lo <= i <= hi <= cs.len(),
            r@ == cs@.subrange(lo as int, i as int),
        decreases hi - i,
    {
        r.push(cs[i]);
        i += 1;
        assert(r@ =~= cs@.subrange(lo as int, i as int));
    }
    r
}

/// `s` without leading and trailing whitespace.
pub fn trim(s: &str) -> (r: &str)
    ensures
        r@ == trimmed(s@),
{
    let cs = chars_of(s);
    let (a, b) = trim_bounds(&cs);
    s.substring_char(a, b)
}

/// The lowercase equivalent of `s`, as characters.
pub fn lowercase_chars(s: &str) -> (r: Vec<char>)
    ensures
        r@ == lowercase(s@),
{
    let lower = s.to_lowercase();
    chars_of(lower.as_str())
}

/// Where the first `k` characters of `s` are no whitespace and the next
/// is, the first word of `s` has `k` characters.
pub proof fn lemma_word_len(s: Seq<char>, k: int)
    requires
        0 <= k <= s.len(),
        forall|i: int| 0 <= i < k ==> !white_space(#[trigger] s[i]),
        k < s.len() ==> white_space(s[k]),
    ensures
        word_len(s) == k,
    decreases k,
{
    if k > 0 {
        let t = s.drop_first();
        assert forall|i: int| 0 <= i < k - 1 implies !white_space(#[trigger] t[i]) by {
            assert(t[i] == s[i + 1]);
        }
        lemma_word_len(t, k - 1);
    }
}

/// The parts of `s` that `ranges` delimits, in order.
pub open spec fn texts_of(s: Seq<char>, ranges: Seq<(usize, usize)>) -> Seq<Seq<char>> {
    Seq::new(ranges.len(), |k: int| s.subrange(ranges[k].0 as int, ranges[k].1 as int))
}

/// Where each whitespace-separated word of `cs` begins and ends.
pub fn word_bounds(cs: &Vec<char>) -> (r: Vec<(usize, usize)>)
    ensures
        forall|k: int| 0 <= k < r.len() ==> (#[trigger] r[k]).0 < r[k].1 <= cs.len(),
        texts_of(cs@, r@) == words(cs@),
{
    let n = cs.len();
    let mut out: Vec<(usize, usize)> = Vec::new();
    let mut i: usize = 0;
    assert(cs@.skip(0) =~= cs@);
    assert(texts_of(cs@, out@) + words(cs@.skip(0)) =~= words(cs@));
    while i < n
        invariant
            i <= n,
            n == cs.len(),
            forall|k: int| 0 <= k < out.len() ==> (#[trigger] out[k]).0 < out[k].1 <= n,
            texts_of(cs@, out@) + words(cs@.skip(i as int)) == words(cs@),
        decreases n - i,
    {
        let ghost rest = cs@.skip(i as int);
        if cs[i].is_whitespace() {
            proof {
                assert(rest[0] == cs@[i as int]);
                assert(rest.drop_first() =~= cs@.skip(i + 1));
            }
            i += 1;
        } else {
            let start = i;
            let mut j: usize = i + 1;
            while j < n && !cs[j].is_whitespace()
                invariant
                    start < j <= n,
                    n == cs.len(),
                    forall|k: int| start <= k < j ==> !white_space(#[trigger] cs@[k]),
                decreases n - j,
            {
                j += 1;
            }
            proof {
                let len = j - start;
                assert forall|k: int| 0 <= k < len implies !white_space(#[trigger] rest[k]) by {
                    assert(rest[k] == cs@[start + k]);
                }
                if len < rest.len() {
                    assert(rest[len] == cs@[j as int]);
                }
                lemma_word_len(rest, len);
                assert(rest[0] == cs@[start as int]);
                assert(rest.take(len) =~= cs@.subrange(start as int, j as int));
                assert(rest.skip(len) =~= cs@.skip(j as int));
                assert(texts_of(cs@, out@.push((start, j))) =~= texts_of(cs@, out@)
                    + seq![cs@.subrange(start as int, j as int)]);
                assert((texts_of(cs@, out@) + seq![cs@.subrange(start as int, j as int)]) + words(
                    cs@.skip(j as int),
                ) =~= texts_of(cs@, out@) + (seq![cs@.subrange(start as int, j as int)] + words(
                    cs@.skip(j as int),
                )));
            }
            out.push((start, j));
            i = j;
        }
    }
    assert(texts_of(cs@, out@) + words(cs@.skip(n as int)) =~= texts_of(cs@, out@));
    out
}

/// Whether `a` and `b` are equal once ASCII letters are put in lower case.
pub fn eq_ignoring_ascii_case(a: &Vec<char>, b: &Vec<char>) -> (r: bool)
    ensures
        r == eq_ignore_ascii_case(a@, b@),
{
    if a.len() != b.len() {
        return false;
    }
    let mut i: usize = 0;
    while i < a.len()
        invariant
            i <= a.len(),
            a.len() == b.len(),
            forall|j: int| 0 <= j < i ==> ascii_lower(#[trigger] a@[j]) == ascii_lower(b@[j]),
        decreases a.len() - i,
    {
        if a[i].to_ascii_lowercase() != b[i].to_ascii_lowercase() {
            return false;
        }
        i += 1;
    }
    true
}

/// Whether every character of `a` is one of `0` to `9`.
pub fn is_all_ascii_digits(a: &Vec<char>) -> (r: bool)
    ensures
        r == all_ascii_digits(a@),
{
    let mut i: usize = 0;
    while i < a.len()
        invariant
            i <= a.len(),
            forall|j: int| 0 <= j < i ==> '0' <= #[trigger] a@[j] <= '9',
        decreases a.len() - i,
    {
        let c = a[i];
        if c < '0' || c > '9' {
            return false;
        }
        i += 1;
    }
    true
}

/// Whether some character of `a` is alphanumeric.
pub fn any_alphanumeric(a: &Vec<char>) -> (r: bool)
    ensures
        r == has_alphanumeric(a@),
{
    let mut i: usize = 0;
    while i < a.len()
        invariant
            i <= a.len(),
            forall|j: int| 0 <= j < i ==> !alphanumeric(#[trigger] a@[j]),
        decreases a.len() - i,
    {
        if a[i].is_alphanumeric() {
            return true;
        }
        i += 1;
    }
    false
}

/// The length of `cs` without its trailing whitespace.
pub fn trim_end_bound(cs: &Vec<char>) -> (r: usize)
    ensures
        r <= cs.len(),
        cs@.take(r as int) == trim_end(cs@),
{
    let mut b: usize = cs.len();
    while b > 0 && cs[b - 1].is_whitespace()
        invariant
            b <= cs.len(),
            forall|i: int| b <= i < cs.len() ==> white_space(#[trigger] cs@[i]),
        decreases b,
    {
        b -= 1;
    }
    proof {
        lemma_trim_end(cs@, b as int);
    }
    b
}

/// Whether `cs` holds the character `c`.
pub fn holds_char(cs: &Vec<char>, c: char) -> (r: bool)
    ensures
        r == cs@.contains(c),
{
    let mut i: usize = 0;
    while i < cs.len()
        invariant
            i <= cs.len(),
            forall|j: int| 0 <= j < i ==> cs@[j] != c,
        decreases cs.len() - i,
    {
        if cs[i] == c {
            return true;
        }
        i += 1;
    }
    false
}

/// Where the first `k` characters of `s` are no line feeds and the next
/// is one, the first line of `s` ends at `k`.
pub proof fn lemma_line_end(s: Seq<char>, k: int)
    requires
        0 <= k <= s.len(),
        forall|i: int| 0 <= i < k ==> s[i] != '\n',
        k < s.len() ==> s[k] == '\n',
    ensures
        line_end(s) == k,
    decreases k,
{
    if k > 0 {
        let t = s.drop_first();
        assert forall|i: int| 0 <= i < k - 1 implies t[i] != '\n' by {
            assert(t[i] == s[i + 1]);
        }
        lemma_line_end(t, k - 1);
    }
}

/// Where the line that begins at index `from` ends: the index of its
/// line feed or the length of `cs`, and the index behind its text, which
/// leaves out a carriage return before the line feed.
pub fn line_bounds(cs: &Vec<char>, from: usize) -> (r: (usize, usize))
    requires
        from <= cs.len(),
    ensures
        from <= r.1 <= r.0 <= cs.len(),
        r.0 - from == line_end(cs@.skip(from as int)),
        cs@.subrange(from as int, r.1 as int) == first_line(cs@.skip(from as int)),
{
    let n = cs.len();
    let ghost rest = cs@.skip(from as int);
    let mut k: usize = from;
    while k < n && cs[k] != '\n'
        invariant
            from <= k <= n,
            n == cs.len(),
            forall|i: int| from <= i < k ==> cs@[i] != '\n',
        decreases n - k,
    {
        k += 1;
    }
    proof {
        assert forall|i: int| 0 <= i < k - from implies rest[i] != '\n' by {
            assert(rest[i] == cs@[from + i]);
        }
        if k < n {
            assert(rest[k - from] == cs@[k as int]);
        }
        lemma_line_end(rest, k - from);
    }
    let text_end = if from < k && k < n && cs[k - 1] == '\r' {
        k - 1
    } else {
        k
    };
    proof {
        if from < k && k < n {
            assert(rest[k - from - 1] == cs@[k - 1]);
        }
        assert(rest.take(text_end - from) =~= cs@.subrange(from as int, text_end as int));
    }
    (k, text_end)
}

/// The first line of `s`, without its line ending.
pub fn first_line_of(s: &str) -> (r: &str)
    ensures
        r@ == first_line(s@),
{
    let cs = chars_of(s);
    assert(cs@.skip(0) =~= cs@);
    let (_, text_end) = line_bounds(&cs, 0);
    s.substring_char(0, text_end)
}

/// The lines of `s`, each without its line ending. A line ends at a line
/// feed, with the carriage return before it where there is one, or at
/// the end of `s`; an empty `s` has no line.
pub open spec fn lines(s: Seq<char>) -> Seq<Seq<char>>
    decreases s.len(),
{
    if s.len() == 0 {
        Seq::empty()
    } else if line_end(s) < s.len() {
        seq![first_line(s)] + lines(s.skip(line_end(s) as int + 1))
    } else {
        seq![first_line(s)]
    }
}

/// The views of the strings of `v`.
pub open spec fn views(v: Seq<String>) -> Seq<Seq<char>> {
    Seq::new(v.len(), |i: int| v[i]@)
}

/// The lines of `s`.
pub fn split_lines(s: &str) -> (r: Vec<String>)
    ensures
        views(r@) == lines(s@),
{
    let cs = chars_of(s);
    let n = cs.len();
    let mut out: Vec<String> = Vec::new();
    let mut pos: usize = 0;
    assert(cs@.skip(0) =~= cs@);
    assert(views(out@) + lines(cs@.skip(0)) =~= lines(cs@));
    while pos < n
        invariant
            pos <= n,
            n == cs.len(),
            cs@ == s@,
            views(out@) + lines(cs@.skip(pos as int)) == lines(cs@),
        decreases n - pos,
    {
        let ghost rest = cs@.skip(pos as int);
        let ghost before = views(out@);
        let (end, text_end) = line_bounds(&cs, pos);
        let line = s.substring_char(pos, text_end);
        out.push(line.to_owned());
        proof {
            assert(views(out@) =~= before + seq![first_line(rest)]);
            if end < n {
                assert(rest.skip(line_end(rest) as int + 1) =~= cs@.skip(end + 1));
                assert((before + seq![first_line(rest)]) + lines(cs@.skip(end + 1)) =~= before + (
                seq![first_line(rest)] + lines(cs@.skip(end + 1))));
            } else {
                assert(cs@.skip(n as int) =~= Seq::<char>::empty());
                assert((before + seq![first_line(rest)]) + lines(cs@.skip(n as int)) =~= before
                    + seq![first_line(rest)]);
            }
        }
        pos = if end < n {
            end + 1
        } else {
            n
        };
    }
    assert(views(out@) + lines(cs@.skip(n as int)) =~= views(out@));
    out
}

/// `r` is the text whose bytes are the first `max_len` bytes of `s`,
/// with three dots behind it.
pub open spec fn is_truncation(s: &str, max_len: usize, r: Seq<char>) -> bool {
    exists|kept: Seq<char>|
        #[trigger] encode_utf8(kept) == s.spec_bytes().subrange(0, max_len as int) && r == kept
            + "..."@
}

/// A text for display: itself where it has `max_len` bytes at most, else
/// its first `max_len` bytes and three dots. A longer text must hold a
/// character's first byte at `max_len`.
pub fn truncate_string(s: &str, max_len: usize) -> (r: String)
    requires
        s.spec_bytes().len() > max_len ==> is_char_boundary(s.spec_bytes(), max_len as int),
    ensures
        s.spec_bytes().len() <= max_len ==> r@ == s@,
        s.spec_bytes().len() > max_len ==> is_truncation(s, max_len, r@),
{
    if s.as_bytes().len() <= max_len {
        String::from_str(s)
    } else {
        let (kept, _) = s.split_at(max_len);
        let r = String::from_str(kept).concat("...");
        assert(encode_utf8(kept@) == s.spec_bytes().subrange(0, max_len as int) && r@ == kept@
            + "..."@);
        r
    }
}

} // verus!
