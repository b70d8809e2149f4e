//! Character-level string operations used by the hooks: searching, trimming,
//! splitting and escaping, each stated over the `Seq<char>` view of a string.
use vstd::prelude::*;

verus! {

/// The characters that `char::is_whitespace` accepts (Unicode `White_Space`).
pub open spec fn is_unicode_whitespace(c: char) -> bool {
    ||| ('\u{9}' <= c && c <= '\u{d}')
    ||| c == ' '
    ||| c == '\u{85}'
    ||| c == '\u{a0}'
    ||| c == '\u{1680}'
    ||| ('\u{2000}' <= c && c <= '\u{200a}')
    ||| c == '\u{2028}'
    ||| c == '\u{2029}'
    ||| c == '\u{202f}'
    ||| c == '\u{205f}'
    ||| c == '\u{3000}'
}

/// `s` with its leading white space removed.
pub open spec fn trim_start(s: Seq<char>) -> Seq<char>
    decreases s.len(),
{
    if s.len() > 0 && is_unicode_whitespace(s[0]) {
        trim_start(s.drop_first())
    } else {
        s
    }
}

/// `s` with its trailing white space removed.
pub open spec fn trim_end(s: Seq<char>) -> Seq<char>
    decreases s.len(),
{
    if s.len() > 0 && is_unicode_whitespace(s.last()) {
        trim_end(s.drop_last())
    } else {
        s
    }
}

/// `s` with white space removed at both ends, as `str::trim` does.
pub open spec fn trim(s: Seq<char>) -> Seq<char> {
    trim_end(trim_start(s))
}

/// `needle` occurs in `hay` as a contiguous run of characters.
pub open spec fn contains_infix(hay: Seq<char>, needle: Seq<char>) -> bool {
    exists|i: int|
        0 <= i && i + needle.len() <= hay.len() && #[trigger] hay.subrange(i, i + needle.len())
            == needle
}

/// `hay` begins with `prefix`.
pub open spec fn has_prefix(hay: Seq<char>, prefix: Seq<char>) -> bool {
    prefix.len() <= hay.len() && hay.subrange(0, prefix.len() as int) == prefix
}

/// `hay` ends with `suffix`.
pub open spec fn has_suffix(hay: Seq<char>, suffix: Seq<char>) -> bool {
    suffix.len() <= hay.len() && hay.subrange(hay.len() - suffix.len(), hay.len() as int)
        == suffix
}

/// The pieces of `s` between occurrences of `sep`, as `str::split` yields them:
/// the text seen so far is folded into finished pieces and a current piece.
pub open spec fn split_state(s: Seq<char>, sep: char) -> (Seq<Seq<char>>, Seq<char>)
    decreases s.len(),
{
    if s.len() == 0 {
        (Seq::empty(), Seq::empty())
    } else {
        let (pieces, cur) = split_state(s.drop_last(), sep);
        if s.last() == sep {
            (pieces.push(cur), Seq::empty())
        } else {
            (pieces, cur.push(s.last()))
        }
    }
}

/// `str::split(sep)`: never empty, and one piece more than there are separators.
pub open spec fn split_on(s: Seq<char>, sep: char) -> Seq<Seq<char>> {
    split_state(s, sep).0.push(split_state(s, sep).1)
}

/// The pieces joined back together with `sep` between each two of them.
pub open spec fn join_with(parts: Seq<Seq<char>>, sep: char) -> Seq<char>
    decreases parts.len(),
{
    if parts.len() == 0 {
        Seq::empty()
    } else if parts.len() == 1 {
        parts[0]
    } else {
        join_with(parts.drop_last(), sep).push(sep) + parts.last()
    }
}

/// How one character is written in a single-line log: a line feed becomes `\n`
/// and, where `escape_cr` holds, a carriage return becomes `\r`.
pub open spec fn escaped_char(c: char, escape_cr: bool) -> Seq<char> {
    if c == '\n' {
        seq!['\\', 'n']
    } else if escape_cr && c == '\r' {
        seq!['\\', 'r']
    } else {
        seq![c]
    }
}

/// `s` with each character written as `escaped_char` writes it.
pub open spec fn escaped(s: Seq<char>, escape_cr: bool) -> Seq<char>
    decreases s.len(),
{
    if s.len() == 0 {
        Seq::empty()
    } else {
        escaped(s.drop_last(), escape_cr) + escaped_char(s.last(), escape_cr)
    }
}

/// The lowercase mapping of `s` that `str::to_lowercase` computes (Unicode's
/// lowercase mappings, context-sensitive for the final sigma).
pub uninterp spec fn lowercase_of(s: Seq<char>) -> Seq<char>;

/// `str::to_lowercase`: its result is `lowercase_of` applied to the characters of
/// `s`; what that mapping is is left to the name.
#[verifier::external_body]
pub(crate) fn to_lowercase(s: &str) -> (r: String)
    ensures
        r@ == lowercase_of(s@),
{
    s.to_lowercase()
}

/// The characters of `s`, in order.
pub fn chars_of(s: &str) -> (out: Vec<char>)
    ensures
        out@ == s@,
{
    let mut out: Vec<char> = Vec::new();
    for c in it: s.chars()
        invariant
            out@ == it.seq().take(it.index() as int),
            it.seq() == s@,
    {
        out.push(c);
    }
    out
}

/// A `String` holding exactly the characters of `chars`.
#[verifier::external_body]
pub(crate) fn string_from_chars(chars: &Vec<char>) -> (s: String)
    ensures
        s@ == chars@,
{
    String::from_iter(chars.iter())
}

/// A `String` holding exactly the characters of `s`.
pub fn to_owned_string(s: &str) -> (out: String)
    ensures
        out@ == s@,
{
    s.to_owned()
}

/// Whether `c` is white space in the sense of `char::is_whitespace`.
pub fn is_whitespace_char(c: char) -> (b: bool)
    ensures
        b == is_unicode_whitespace(c),
{
    ('\u{9}' <= c && c <= '\u{d}') || c == ' ' || c == '\u{85}' || c == '\u{a0}' || c
        == '\u{1680}' || ('\u{2000}' <= c && c <= '\u{200a}') || c == '\u{2028}' || c
        == '\u{2029}' || c == '\u{202f}' || c == '\u{205f}' || c == '\u{3000}'
}

/// Whether two character sequences are equal.
pub fn chars_equal(a: &Vec<char>, b: &Vec<char>) -> (r: bool)
    ensures
        r == (a@ == b@),
{
    if a.len() != b.len() {
        return false;
    }
    let mut i: usize = 0;
    while i < a.len()
        invariant
            a.len() == b.len(),
            i <= a.len(),
            forall|k: int| 0 <= k < i ==> a@[k] == b@[k],
        decreases a.len() - i,
    {
        if a[i] != b[i] {
            return false;
        }
        i = i + 1;
    }
    assert(a@ =~= b@);
    true
}

/// Whether `needle` occurs in `hay` at position `at`.
fn occurs_at(hay: &Vec<char>, needle: &Vec<char>, at: usize) -> (r: bool)
    requires
        at + needle.len() <= hay.len(),
    ensures
        r == (hay@.subrange(at as int, at + needle.len()) == needle@),
{
    let mut k: usize = 0;
    while k < needle.len()
        invariant
            at + needle.len() <= hay.len(),
            k <= needle.len(),
            forall|j: int| 0 <= j < k ==> hay@[at + j] == needle@[j],
        decreases needle.len() - k,
    {
        if hay[at + k] != needle[k] {
            assert(hay@.subrange(at as int, at + needle.len())[k as int] != needle@[k as int]);
            return false;
        }
        k = k + 1;
    }
    assert(hay@.subrange(at as int, at + needle.len()) =~= needle@);
    true
}

/// Whether `needle` occurs as a contiguous run in `hay`.
pub fn chars_contain(hay: &Vec<char>, needle: &Vec<char>) -> (r: bool)
    ensures
        r == contains_infix(hay@, needle@),
{
    if needle.len() == 0 {
        assert(hay@.subrange(0, 0int + needle@.len()) =~= needle@);
        return true;
    }
    if needle.len() > hay.len() {
        return false;
    }
    let last = hay.len() - needle.len();
    let mut i: usize = 0;
    while i <= last
        invariant
            last + needle.len() == hay.len(),
            needle.len() >= 1,
            i <= last + 1,
            forall|j: int|
                0 <= j < i ==> #[trigger] hay@.subrange(j, j + needle.len()) != needle@,
        decreases last + 1 - i,
    {
        if occurs_at(hay, needle, i) {
            return true;
        }
        i = i + 1;
    }
    false
}

/// Whether the string `hay` contains the string `needle`, as `str::contains` tells.
pub fn str_contains(hay: &str, needle: &str) -> (r: bool)
    ensures
        r == contains_infix(hay@, needle@),
{
    let h = chars_of(hay);
    let n = chars_of(needle);
    chars_contain(&h, &n)
}

/// Whether `hay` ends with `suffix`.
pub fn chars_end_with(hay: &Vec<char>, suffix: &Vec<char>) -> (r: bool)
    ensures
        r == has_suffix(hay@, suffix@),
{
    if suffix.len() > hay.len() {
        return false;
    }
    let at = hay.len() - suffix.len();
    occurs_at(hay, suffix, at)
}

/// The characters of `v` from position `from` on.
pub fn tail_chars(v: &Vec<char>, from: usize) -> (out: Vec<char>)
    requires
        from <= v.len(),
    ensures
        out@ == v@.skip(from as int),
{
    let mut out: Vec<char> = Vec::new();
    let mut k: usize = from;
    while k < v.len()
        invariant
            from <= k <= v.len(),
            out@ == v@.subrange(from as int, k as int),
        decreases v.len() - k,
    {
        out.push(v[k]);
        assert(out@ =~= v@.subrange(from as int, k + 1));
        k = k + 1;
    }
    assert(out@ =~= v@.skip(from as int));
    out
}

/// Whether the characters of `v` are exactly those of the literal `lit`.
pub fn chars_are(v: &Vec<char>, lit: &str) -> (r: bool)
    ensures
        r == (v@ == lit@),
{
    let l = chars_of(lit);
    chars_equal(v, &l)
}

/// Whether `c` is one of the characters of `s`.
pub fn chars_include(s: &Vec<char>, c: char) -> (r: bool)
    ensures
        r == s@.contains(c),
{
    let mut i: usize = 0;
    while i < s.len()
        invariant
            i <= s.len(),
            forall|k: int| 0 <= k < i ==> s@[k] != c,
        decreases s.len() - i,
    {
        if s[i] == c {
            return true;
        }
        i = i + 1;
    }
    false
}

/// The characters of `s` with white space removed at both ends.
pub fn trim_chars(s: &Vec<char>) -> (out: Vec<char>)
    ensures
        out@ == trim(s@),
{
    let mut i: usize = 0;
    assert(s@.skip(0) =~= s@);
    while i < s.len() && is_whitespace_char(s[i])
        invariant
            i <= s.len(),
            trim_start(s@) == trim_start(s@.skip(i as int)),
        decreases s.len() - i,
    {
        assert(s@.skip(i as int).drop_first() =~= s@.skip(i + 1));
        i = i + 1;
    }
    let ghost rest = s@.skip(i as int);
    assert(trim_start(rest) == rest);
    let mut j: usize = s.len();
    while j > i && is_whitespace_char(s[j - 1])
        invariant
            i <= j <= s.len(),
            trim_end(rest) == trim_end(s@.subrange(i as int, j as int)),
            rest == s@.skip(i as int),
        decreases j,
    {
        assert(s@.subrange(i as int, j as int).drop_last() =~= s@.subrange(i as int, j - 1));
        j = j - 1;
    }
    assert(trim_end(s@.subrange(i as int, j as int)) == s@.subrange(i as int, j as int));
    let mut out: Vec<char> = Vec::new();
    let mut k: usize = i;
    while k < j
        invariant
            i <= k <= j <= s.len(),
            out@ == s@.subrange(i as int, k as int),
        decreases j - k,
    {
        out.push(s[k]);
        assert(out@ =~= s@.subrange(i as int, k + 1));
        k = k + 1;
    }
    out
}

/// The pieces of `s` between occurrences of `sep`, as `str::split(sep)` yields them.
pub fn split_chars(s: &Vec<char>, sep: char) -> (out: Vec<Vec<char>>)
    ensures
        out@.map_values(|p: Vec<char>| p@) == split_on(s@, sep),
{
    let mut pieces: Vec<Vec<char>> = Vec::new();
    let mut cur: Vec<char> = Vec::new();
    let mut i: usize = 0;
    while i < s.len()
        invariant
            i <= s.len(),
            split_state(s@.take(i as int), sep) == (
            pieces@.map_values(|p: Vec<char>| p@),
            cur@,
            ),
        decreases s.len() - i,
    {
        assert(s@.take(i + 1).drop_last() =~= s@.take(i as int));
        if s[i] == sep {
            let ghost before = pieces@.map_values(|p: Vec<char>| p@);
            let finished = cur;
            cur = Vec::new();
            pieces.push(finished);
            assert(pieces@.map_values(|p: Vec<char>| p@) =~= before.push(finished@));
        } else {
            cur.push(s[i]);
        }
        i = i + 1;
    }
    assert(s@.take(s.len() as int) =~= s@);
    let ghost before = pieces@.map_values(|p: Vec<char>| p@);
    let last = cur;
    pieces.push(last);
    assert(pieces@.map_values(|p: Vec<char>| p@) =~= before.push(last@));
    pieces
}

/// `s` with line breaks written out as escapes, so that it fits on one log line.
pub fn escape_chars(s: &Vec<char>, escape_cr: bool) -> (out: Vec<char>)
    ensures
        out@ == escaped(s@, escape_cr),
{
    let mut out: Vec<char> = Vec::new();
    let mut i: usize = 0;
    while i < s.len()
        invariant
            i <= s.len(),
            out@ == escaped(s@.take(i as int), escape_cr),
        decreases s.len() - i,
    {
        assert(s@.take(i + 1).drop_last() =~= s@.take(i as int));
        let c = s[i];
        if c == '\n' {
            out.push('\\');
            out.push('n');
        } else if escape_cr && c == '\r' {
            out.push('\\');
            out.push('r');
        } else {
            out.push(c);
        }
        assert(out@ =~= escaped(s@.take(i + 1), escape_cr));
        i = i + 1;
    }
    assert(s@.take(s.len() as int) =~= s@);
    out
}


/// Trimming the start removes exactly the leading white space: the result is what
/// follows a run of white space in `s`, and does not start with white space.
pub proof fn lemma_trim_start_drops_leading_space(s: Seq<char>)
    ensures
        exists|i: int| 0 <= i <= s.len() && #[trigger] s.skip(i) == trim_start(s)
            && forall|k: int| 0 <= k < i ==> is_unicode_whitespace(#[trigger] s[k]),
        trim_start(s).len() > 0 ==> !is_unicode_whitespace(trim_start(s)[0]),
    decreases s.len(),
{
    if s.len() > 0 && is_unicode_whitespace(s[0]) {
        lemma_trim_start_drops_leading_space(s.drop_first());
        let i = choose|i: int| 0 <= i <= s.drop_first().len() && #[trigger] s.drop_first().skip(i)
            == trim_start(s.drop_first()) && forall|k: int| 0 <= k < i ==> is_unicode_whitespace(
            #[trigger] s.drop_first()[k]);
        assert(s.skip(i + 1) =~= s.drop_first().skip(i));
        assert forall|k: int| 0 <= k < i + 1 implies is_unicode_whitespace(#[trigger] s[k]) by {
            if k > 0 {
                assert(s.drop_first()[k - 1] == s[k]);
            }
        }
    } else {
        assert(s.skip(0) =~= s);
    }
}

/// Trimming the end removes exactly the trailing white space: the result is what
/// comes before a run of white space in `s`, and does not end with white space.
pub proof fn lemma_trim_end_drops_trailing_space(s: Seq<char>)
    ensures
        exists|j: int| 0 <= j <= s.len() && #[trigger] s.take(j) == trim_end(s)
            && forall|k: int| j <= k < s.len() ==> is_unicode_whitespace(#[trigger] s[k]),
        trim_end(s).len() > 0 ==> !is_unicode_whitespace(trim_end(s).last()),
    decreases s.len(),
{
    if s.len() > 0 && is_unicode_whitespace(s.last()) {
        lemma_trim_end_drops_trailing_space(s.drop_last());
        let j = choose|j: int| 0 <= j <= s.drop_last().len() && #[trigger] s.drop_last().take(j)
            == trim_end(s.drop_last()) && forall|k: int| j <= k < s.drop_last().len()
            ==> is_unicode_whitespace(#[trigger] s.drop_last()[k]);
        assert(s.take(j) =~= s.drop_last().take(j));
        assert forall|k: int| j <= k < s.len() implies is_unicode_whitespace(#[trigger] s[k]) by {
            if k < s.len() - 1 {
                assert(s.drop_last()[k] == s[k]);
            }
        }
    } else {
        assert(s.take(s.len() as int) =~= s);
    }
}

/// Trimming keeps the text between the white space at either end, as it is, and
/// leaves no white space at either end.
pub proof fn lemma_trim_keeps_the_middle(s: Seq<char>)
    ensures
        exists|i: int, j: int| #![trigger s.subrange(i, j)]
            0 <= i <= j <= s.len() && s.subrange(i, j) == trim(s)
            && (forall|k: int| 0 <= k < i ==> is_unicode_whitespace(#[trigger] s[k]))
            && (forall|k: int| j <= k < s.len() ==> is_unicode_whitespace(#[trigger] s[k])),
        trim(s).len() > 0 ==> !is_unicode_whitespace(trim(s)[0]) && !is_unicode_whitespace(trim(s).last()),
{
    lemma_trim_start_drops_leading_space(s);
    let i = choose|i: int| 0 <= i <= s.len() && #[trigger] s.skip(i) == trim_start(s)
        && forall|k: int| 0 <= k < i ==> is_unicode_whitespace(#[trigger] s[k]);
    let t = trim_start(s);
    lemma_trim_end_drops_trailing_space(t);
    let j = choose|j: int| 0 <= j <= t.len() && #[trigger] t.take(j) == trim_end(t)
        && forall|k: int| j <= k < t.len() ==> is_unicode_whitespace(#[trigger] t[k]);
    assert(s.subrange(i, i + j) =~= t.take(j));
    assert forall|k: int| i + j <= k < s.len() implies is_unicode_whitespace(#[trigger] s[k]) by {
        assert(t[k - i] == s[k]);
    }
    if trim(s).len() > 0 {
        assert(trim(s)[0] == t[0]);
    }
}

} // verus!
