//! Text as a sequence of characters: the few operations that the sniffers
//! and the header parsers are made of, each with its meaning as a spec
//! function.
use vstd::prelude::*;
use vstd::slice::slice_subrange;
use vstd::utf8::*;

verus! {

/// The characters with the Unicode property `White_Space`.
pub open spec fn is_whitespace(c: char) -> bool {
    let u = c as u32;
    ||| 0x09 <= u <= 0x0D
    ||| u == 0x20
    ||| u == 0x85
    ||| u == 0xA0
    ||| u == 0x1680
    ||| 0x2000 <= u <= 0x200A
    ||| u == 0x2028
    ||| u == 0x2029
    ||| u == 0x202F
    ||| u == 0x205F
    ||| u == 0x3000
}

/// An ASCII capital letter becomes its small letter; every other
/// character stays.
pub open spec fn lower(c: char) -> char {
    if 'A' <= c <= 'Z' {
        ((c as u8 + 32) as u8) as char
    } else {
        c
    }
}

/// Equal but for the case of ASCII letters.
pub open spec fn eq_ignore_case(a: Seq<char>, b: Seq<char>) -> bool {
    &&& a.len() == b.len()
    &&& forall|i: int| 0 <= i < a.len() ==> lower(#[trigger] a[i]) == lower(b[i])
}

/// `s` begins with `p`, but for the case of ASCII letters.
pub open spec fn has_prefix_ignore_case(s: Seq<char>, p: Seq<char>) -> bool {
    s.len() >= p.len() && eq_ignore_case(s.take(p.len() as int), p)
}

/// The index of the first `c` in `s`; the length of `s` where there is none.
pub open spec fn first_index(s: Seq<char>, c: char) -> int
    decreases s.len(),
{
    if s.len() == 0 || s[0] == c {
        0
    } else {
        1 + first_index(s.drop_first(), c)
    }
}

/// What stands before the first `c` in `s`: all of `s` where there is none.
pub open spec fn before(s: Seq<char>, c: char) -> Seq<char> {
    s.take(first_index(s, c))
}

/// `s` without the white space at its beginning.
pub open spec fn trim_start(s: Seq<char>) -> Seq<char>
    decreases s.len(),
{
    if s.len() > 0 && is_whitespace(s[0]) {
        trim_start(s.drop_first())
    } else {
        s
    }
}

/// `s` without the white space at its end.
pub open spec fn trim_end(s: Seq<char>) -> Seq<char>
    decreases s.len(),
{
    if s.len() > 0 && is_whitespace(s.last()) {
        trim_end(s.drop_last())
    } else {
        s
    }
}

/// `s` without the white space at either end.
pub open spec fn trim(s: Seq<char>) -> Seq<char> {
    trim_end(trim_start(s))
}

/// How many characters at the beginning of `s` are no white space.
pub open spec fn word_len(s: Seq<char>) -> int
    decreases s.len(),
{
    if s.len() == 0 || is_whitespace(s[0]) {
        0
    } else {
        1 + word_len(s.drop_first())
    }
}

/// The first word of `s`: after the leading white space, what stands
/// before the next white space. Empty where `s` holds no word.
pub open spec fn first_word(s: Seq<char>) -> Seq<char> {
    let t = trim_start(s);
    t.take(word_len(t))
}

/// What follows the first word of `s`.
pub open spec fn after_first_word(s: Seq<char>) -> Seq<char> {
    let t = trim_start(s);
    t.skip(word_len(t))
}

/// A line without the carriage return that may end it.
pub open spec fn strip_cr(s: Seq<char>) -> Seq<char> {
    if s.len() > 0 && s.last() == '\r' {
        s.drop_last()
    } else {
        s
    }
}

/// The lines of a text. A line ends at a line feed, and a carriage return
/// just before that line feed belongs to the ending. What follows the last
/// line feed is a line of its own unless it is empty, and keeps a carriage
/// return at its end.
pub open spec fn lines(s: Seq<char>) -> Seq<Seq<char>>
    decreases s.len(),
{
    let e = first_index(s, '\n');
    if s.len() == 0 {
        Seq::empty()
    } else if e < 0 || e >= s.len() {
        seq![s]
    } else {
        seq![strip_cr(s.take(e))] + lines(s.skip(e + 1))
    }
}

/// A result that carries a string, with the string as its text.
pub open spec fn text_of<E>(r: Result<String, E>) -> Result<Seq<char>, E> {
    match r {
        Ok(s) => Ok(s@),
        Err(e) => Err(e),
    }
}

/// `needle` stands in `hay` at index `k`.
pub open spec fn occurs_at(hay: Seq<char>, needle: Seq<char>, k: int) -> bool {
    0 <= k && k + needle.len() <= hay.len() && hay.subrange(k, k + needle.len()) == needle
}

/// `needle` stands somewhere in `hay`.
pub open spec fn has_infix(hay: Seq<char>, needle: Seq<char>) -> bool {
    exists|k: int| occurs_at(hay, needle, k)
}

/// The texts that a list of slices holds.
pub open spec fn views(v: Seq<&[char]>) -> Seq<Seq<char>> {
    Seq::new(v.len(), |i: int| v[i]@)
}

/// Where `first_index` points: inside or at the end of `s`, at a `c` if
/// inside, with no `c` before it.
pub proof fn lemma_first_index(s: Seq<char>, c: char)
    ensures
        0 <= first_index(s, c) <= s.len(),
        first_index(s, c) < s.len() ==> s[first_index(s, c)] == c,
        forall|j: int| 0 <= j < first_index(s, c) ==> s[j] != c,
    decreases s.len(),
{
    if s.len() == 0 || s[0] == c {
    } else {
        let t = s.drop_first();
        lemma_first_index(t, c);
        assert forall|j: int| 0 <= j < first_index(s, c) implies s[j] != c by {
            if j > 0 {
                assert(s[j] == t[j - 1]);
            }
        }
    }
}

/// The index with no `c` before it that is the end of `s` or holds a `c`
/// is the one that `first_index` gives.
pub proof fn lemma_first_index_is(s: Seq<char>, c: char, k: int)
    requires
        0 <= k <= s.len(),
        k < s.len() ==> s[k] == c,
        forall|j: int| 0 <= j < k ==> s[j] != c,
    ensures
        first_index(s, c) == k,
    decreases s.len(),
{
    if s.len() == 0 || s[0] == c {
    } else {
        let t = s.drop_first();
        assert forall|j: int| 0 <= j < k - 1 implies t[j] != c by {
            assert(t[j] == s[j + 1]);
        }
        lemma_first_index_is(t, c, k - 1);
    }
}

/// `trim_start` drops `k` white-space characters and stops at the end of
/// `s` or at a character that is none.
pub proof fn lemma_trim_start_is(s: Seq<char>, k: int)
    requires
        0 <= k <= s.len(),
        k < s.len() ==> !is_whitespace(s[k]),
        forall|j: int| 0 <= j < k ==> is_whitespace(s[j]),
    ensures
        trim_start(s) == s.skip(k),
    decreases s.len(),
{
    if k == 0 {
        assert(s.skip(0) =~= s);
    } else {
        let t = s.drop_first();
        assert forall|j: int| 0 <= j < k - 1 implies is_whitespace(t[j]) by {
            assert(t[j] == s[j + 1]);
        }
        lemma_trim_start_is(t, k - 1);
        assert(t.skip(k - 1) =~= s.skip(k));
    }
}

/// `trim_end` keeps the first `k` characters where all behind them are
/// white space and the one before them, if any, is none.
pub proof fn lemma_trim_end_is(s: Seq<char>, k: int)
    requires
        0 <= k <= s.len(),
        k > 0 ==> !is_whitespace(s[k - 1]),
        forall|j: int| k <= j < s.len() ==> is_whitespace(s[j]),
    ensures
        trim_end(s) == s.take(k),
    decreases s.len(),
{
    if k == s.len() {
        assert(s.take(k) =~= s);
    } else {
        let t = s.drop_last();
        lemma_trim_end_is(t, k);
        assert(t.take(k) =~= s.take(k));
    }
}

/// `word_len` is `k` where the first `k` characters are no white space and
/// the next one, if any, is.
pub proof fn lemma_word_len_is(s: Seq<char>, k: int)
    requires
        0 <= k <= s.len(),
        k < s.len() ==> is_whitespace(s[k]),
        forall|j: int| 0 <= j < k ==> !is_whitespace(s[j]),
    ensures
        word_len(s) == k,
    decreases s.len(),
{
    if s.len() == 0 || is_whitespace(s[0]) {
    } else {
        let t = s.drop_first();
        assert forall|j: int| 0 <= j < k - 1 implies !is_whitespace(t[j]) by {
            assert(t[j] == s[j + 1]);
        }
        lemma_word_len_is(t, k - 1);
    }
}

/// Whether `c` has the Unicode property `White_Space`.
pub fn is_space(c: char) -> (b: bool)
    ensures
        b == is_whitespace(c),
{
    let u: u32 = c as u32;
    (0x09 <= u && u <= 0x0D) || u == 0x20 || u == 0x85 || u == 0xA0 || u == 0x1680 || (0x2000 <= u
        && u <= 0x200A) || u == 0x2028 || u == 0x2029 || u == 0x202F || u == 0x205F || u == 0x3000
}

/// The small letter of an ASCII capital letter, any other character as it is.
pub fn to_lower(c: char) -> (l: char)
    ensures
        l == lower(c),
{
    if 'A' <= c && c <= 'Z' {
        ((c as u8) + 32) as char
    } else {
        c
    }
}

/// The characters of a string, one by one.
pub fn chars_of(s: &str) -> (v: Vec<char>)
    ensures
        v@ == s@,
{
    let mut v: Vec<char> = Vec::new();
    for c in it: s.chars()
        invariant
            it.seq() == s@,
            v@ == it.seq().take(it.index()),
    {
        v.push(c);
    }
    v
}

/// The string made of the characters of `s`.
pub fn string_of(s: &[char]) -> (t: String)
    ensures
        t@ == s@,
{
    let mut t = String::new();
    let mut i: usize = 0;
    while i < s.len()
        invariant
            i <= s.len(),
            t@ == s@.take(i as int),
        decreases s.len() - i,
    {
        t.push(s[i]);
        i = i + 1;
    }
    t
}

/// Whether `s` begins with `pattern`, the case of ASCII letters aside.
pub fn starts_with_ignore_case(s: &[char], pattern: &[char]) -> (b: bool)
    ensures
        b == has_prefix_ignore_case(s@, pattern@),
{
    if s.len() < pattern.len() {
        return false;
    }
    let mut i: usize = 0;
    while i < pattern.len()
        invariant
            i <= pattern.len() <= s.len(),
            forall|j: int| 0 <= j < i ==> lower(s@[j]) == lower(pattern@[j]),
        decreases pattern.len() - i,
    {
        if to_lower(s[i]) != to_lower(pattern[i]) {
            assert(s@.take(pattern@.len() as int)[i as int] == s@[i as int]);
            return false;
        }
        i = i + 1;
    }
    assert forall|j: int| 0 <= j < pattern@.len() implies lower(
        #[trigger] s@.take(pattern@.len() as int)[j],
    ) == lower(pattern@[j]) by {
        assert(s@.take(pattern@.len() as int)[j] == s@[j]);
    }
    true
}

/// Whether `s` is `pattern`, the case of ASCII letters aside.
pub fn equals_ignore_case(s: &[char], pattern: &[char]) -> (b: bool)
    ensures
        b == eq_ignore_case(s@, pattern@),
{
    let b = s.len() == pattern.len() && starts_with_ignore_case(s, pattern);
    proof {
        if s@.len() == pattern@.len() {
            assert(s@.take(pattern@.len() as int) =~= s@);
        }
    }
    b
}

/// Whether `needle` stands in `hay` at index `k`.
pub fn matches_at(hay: &[char], needle: &[char], k: usize) -> (b: bool)
    ensures
        b == occurs_at(hay@, needle@, k as int),
{
    if k > hay.len() || needle.len() > hay.len() - k {
        return false;
    }
    let mut i: usize = 0;
    while i < needle.len()
        invariant
            i <= needle.len(),
            k + needle.len() <= hay.len(),
            forall|j: int| 0 <= j < i ==> hay@[k + j] == needle@[j],
        decreases needle.len() - i,
    {
        if hay[k + i] != needle[i] {
            assert(hay@.subrange(k as int, k + needle@.len())[i as int] == hay@[k + i]);
            return false;
        }
        i = i + 1;
    }
    assert(hay@.subrange(k as int, k + needle@.len()) =~= needle@);
    true
}

/// Whether `needle` stands somewhere in `hay`.
pub fn contains_text(hay: &[char], needle: &[char]) -> (b: bool)
    ensures
        b == has_infix(hay@, needle@),
{
    if needle.len() > hay.len() {
        return false;
    }
    if needle.len() == 0 {
        assert(hay@.subrange(0, 0) =~= needle@);
        assert(occurs_at(hay@, needle@, 0));
        return true;
    }
    let last: usize = hay.len() - needle.len();
    let mut k: usize = 0;
    while k <= last
        invariant
            k <= last + 1,
            last == hay.len() - needle.len(),
            0 < needle.len() <= hay.len(),
            forall|j: int| 0 <= j < k ==> !occurs_at(hay@, needle@, j),
        decreases last + 1 - k,
    {
        if matches_at(hay, needle, k) {
            return true;
        }
        k = k + 1;
    }
    false
}

/// Whether two strings hold the same text.
pub fn same_text(a: &str, b: &str) -> (same: bool)
    ensures
        same == (a@ == b@),
{
    let x = a.as_bytes();
    let y = b.as_bytes();
    proof {
        encode_utf8_decode_utf8(a@);
        encode_utf8_decode_utf8(b@);
    }
    if x.len() != y.len() {
        return false;
    }
    let mut i: usize = 0;
    while i < x.len()
        invariant
            i <= x.len() == y.len(),
            x@ == encode_utf8(a@),
            y@ == encode_utf8(b@),
            forall|j: int| 0 <= j < i ==> x@[j] == y@[j],
        decreases x.len() - i,
    {
        if x[i] != y[i] {
            return false;
        }
        i = i + 1;
    }
    assert(x@ =~= y@);
    true
}

/// The index of the first `c` in `s`, or the length of `s`.
pub fn find(s: &[char], c: char) -> (k: usize)
    ensures
        k == first_index(s@, c),
        k <= s.len(),
{
    let mut k: usize = 0;
    while k < s.len() && s[k] != c
        invariant
            k <= s.len(),
            forall|j: int| 0 <= j < k ==> s@[j] != c,
        decreases s.len() - k,
    {
        k = k + 1;
    }
    proof {
        lemma_first_index_is(s@, c, k as int);
    }
    k
}

/// The part of `s` before the first `c`.
pub fn take_before(s: &[char], c: char) -> (r: &[char])
    ensures
        r@ == before(s@, c),
{
    let k = find(s, c);
    slice_subrange(s, 0, k)
}

/// `s` without the white space at either end.
pub fn trimmed(s: &[char]) -> (r: &[char])
    ensures
        r@ == trim(s@),
{
    let n = s.len();
    let mut a: usize = 0;
    while a < n && is_space(s[a])
        invariant
            a <= n == s.len(),
            forall|j: int| 0 <= j < a ==> is_whitespace(s@[j]),
        decreases n - a,
    {
        a = a + 1;
    }
    let mut b: usize = n;
    while b > a && is_space(s[b - 1])
        invariant
            a <= b <= n == s.len(),
            forall|j: int| b <= j < n ==> is_whitespace(s@[j]),
        decreases b,
    {
        b = b - 1;
    }
    proof {
        lemma_trim_start_is(s@, a as int);
        let t = s@.skip(a as int);
        lemma_trim_end_is(t, b - a);
        assert(t.take(b - a) =~= s@.subrange(a as int, b as int));
    }
    slice_subrange(s, a, b)
}

/// The first word of `s` and what follows it.
pub fn split_first_word(s: &[char]) -> (r: (&[char], &[char]))
    ensures
        r.0@ == first_word(s@),
        r.1@ == after_first_word(s@),
{
    let n = s.len();
    let mut a: usize = 0;
    while a < n && is_space(s[a])
        invariant
            a <= n == s.len(),
            forall|j: int| 0 <= j < a ==> is_whitespace(s@[j]),
        decreases n - a,
    {
        a = a + 1;
    }
    let mut b: usize = a;
    while b < n && !is_space(s[b])
        invariant
            a <= b <= n == s.len(),
            forall|j: int| a <= j < b ==> !is_whitespace(s@[j]),
        decreases n - b,
    {
        b = b + 1;
    }
    proof {
        lemma_trim_start_is(s@, a as int);
        let t = s@.skip(a as int);
        lemma_word_len_is(t, b - a);
        assert(t.take(b - a) =~= s@.subrange(a as int, b as int));
        assert(t.skip(b - a) =~= s@.subrange(b as int, n as int));
    }
    (slice_subrange(s, a, b), slice_subrange(s, b, n))
}

/// The lines of `s`, in order.
pub fn split_lines(s: &[char]) -> (out: Vec<&[char]>)
    ensures
        views(out@) == lines(s@),
{
    let n = s.len();
    let mut out: Vec<&[char]> = Vec::new();
    let mut pos: usize = 0;
    proof {
        assert(s@.skip(0) =~= s@);
        assert(views(out@) =~= Seq::<Seq<char>>::empty());
    }
    while pos < n
        invariant
            pos <= n == s.len(),
            views(out@) + lines(s@.skip(pos as int)) == lines(s@),
        decreases n - pos,
    {
        let rest = slice_subrange(s, pos, n);
        let e = find(rest, '\n');
        let ghost before_push = views(out@);
        proof {
            assert(rest@ =~= s@.skip(pos as int));
            lemma_first_index(rest@, '\n');
        }
        if e == rest.len() {
            out.push(rest);
            proof {
                assert(views(out@) =~= before_push.push(rest@));
                assert(lines(s@.skip(n as int)) =~= Seq::<Seq<char>>::empty());
                assert(before_push + seq![rest@] =~= before_push.push(rest@)
                    + Seq::<Seq<char>>::empty());
            }
            pos = n;
        } else {
            let line = if e > 0 && rest[e - 1] == '\r' {
                slice_subrange(rest, 0, e - 1)
            } else {
                slice_subrange(rest, 0, e)
            };
            out.push(line);
            proof {
                let whole = rest@.take(e as int);
                assert(line@ =~= strip_cr(whole));
                assert(views(out@) =~= before_push.push(line@));
                assert(rest@.skip(e + 1) =~= s@.skip(pos + e + 1));
                assert(before_push + (seq![line@] + lines(rest@.skip(e + 1)))
                    =~= before_push.push(line@) + lines(rest@.skip(e + 1)));
            }
            pos = pos + e + 1;
        }
    }
    proof {
        assert(lines(s@.skip(n as int)) =~= Seq::<Seq<char>>::empty());
        assert(views(out@) + Seq::<Seq<char>>::empty() =~= views(out@));
    }
    out
}

} // verus!
