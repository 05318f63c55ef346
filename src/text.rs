//! Pure string functions: template substitution, word-list splitting and the
//! transforms that post-process a sampled string.
use vstd::prelude::*;

verus! {

/// Whether a placeholder `{}` starts at the front of `p`.
pub open spec fn starts_with_hole(p: Seq<char>) -> bool {
    p.len() >= 2 && p[0] == '{' && p[1] == '}'
}

/// Number of placeholders `{}` in a pattern, read left to right.
pub open spec fn holes(p: Seq<char>) -> nat
    decreases p.len(),
{
    if p.len() == 0 {
        0
    } else if starts_with_hole(p) {
        1 + holes(p.subrange(2, p.len() as int))
    } else {
        holes(p.drop_first())
    }
}

/// The pattern `p` with its i-th placeholder replaced by `vals[i]`; a
/// placeholder with no value left becomes empty.
pub open spec fn fill(p: Seq<char>, vals: Seq<Seq<char>>) -> Seq<char>
    decreases p.len(),
{
    if p.len() == 0 {
        Seq::empty()
    } else if starts_with_hole(p) {
        if vals.len() > 0 {
            vals[0] + fill(p.subrange(2, p.len() as int), vals.drop_first())
        } else {
            fill(p.subrange(2, p.len() as int), vals)
        }
    } else {
        seq![p[0]] + fill(p.drop_first(), vals)
    }
}

/// The views of a list of strings.
pub open spec fn views(v: Seq<String>) -> Seq<Seq<char>> {
    v.map_values(|s: String| s@)
}

/// Each character of `s` as a one-character string.
pub open spec fn singles(s: Seq<char>) -> Seq<Seq<char>> {
    s.map_values(|c: char| seq![c])
}

/// The characters of `s`, each as a string of its own.
pub fn char_values(s: &str) -> (r: Vec<String>)
    ensures
        views(r@) == singles(s@),
{
    let n = s.unicode_len();
    let mut out: Vec<String> = Vec::new();
    let mut i: usize = 0;
    while i < n
        invariant
            n == s@.len(),
            i <= n,
            views(out@) == singles(s@.subrange(0, i as int)),
        decreases n - i,
    {
        let one = s.substring_char(i, i + 1);
        assert(one@ =~= seq![s@[i as int]]);
        let ghost prev = out@;
        out.push(one.to_owned());
        assert(views(out@) =~= views(prev).push(one@));
        assert(singles(s@.subrange(0, i + 1)) =~= singles(s@.subrange(0, i as int)).push(seq![s@[i as int]]));
        i = i + 1;
    }
    assert(s@.subrange(0, n as int) == s@);
    out
}

/// Counts the placeholders `{}` in `pattern`.
pub fn count_holes(pattern: &str) -> (r: usize)
    ensures
        r == holes(pattern@),
{
    let n = pattern.unicode_len();
    let mut i: usize = 0;
    let mut count: usize = 0;
    assert(pattern@.subrange(0, n as int) == pattern@);
    while i < n
        invariant
            n == pattern@.len(),
            i <= n,
            count <= i,
            count + holes(pattern@.subrange(i as int, n as int)) == holes(pattern@),
        decreases n - i,
    {
        let rest = Ghost(pattern@.subrange(i as int, n as int));
        if i + 1 < n && pattern.get_char(i) == '{' && pattern.get_char(i + 1) == '}' {
            assert(starts_with_hole(rest@));
            assert(rest@.subrange(2, rest@.len() as int) == pattern@.subrange(i + 2, n as int));
            count = count + 1;
            i = i + 2;
        } else {
            assert(!starts_with_hole(rest@));
            assert(rest@.drop_first() == pattern@.subrange(i + 1, n as int));
            i = i + 1;
        }
    }
    assert(pattern@.subrange(n as int, n as int).len() == 0);
    count
}

/// Substitutes `vals` into the placeholders of `pattern`, in order.
pub fn fill_pattern(pattern: &str, vals: &Vec<String>) -> (r: String)
    ensures
        r@ == fill(pattern@, views(vals@)),
{
    let n = pattern.unicode_len();
    let mut out = String::new();
    let mut i: usize = 0;
    let mut k: usize = 0;
    assert(pattern@.subrange(0, n as int) == pattern@);
    assert(views(vals@).subrange(0, vals@.len() as int) == views(vals@));
    while i < n
        invariant
            n == pattern@.len(),
            i <= n,
            k <= vals@.len(),
            out@ + fill(pattern@.subrange(i as int, n as int), views(vals@).subrange(k as int, vals@.len() as int))
                == fill(pattern@, views(vals@)),
        decreases n - i,
    {
        let ghost rest = pattern@.subrange(i as int, n as int);
        let ghost vs = views(vals@).subrange(k as int, vals@.len() as int);
        if i + 1 < n && pattern.get_char(i) == '{' && pattern.get_char(i + 1) == '}' {
            assert(starts_with_hole(rest));
            assert(rest.subrange(2, rest.len() as int) == pattern@.subrange(i + 2, n as int));
            if k < vals.len() {
                out.append(vals[k].as_str());
                assert(vs[0] == vals@[k as int]@);
                assert(vs.drop_first() == views(vals@).subrange(k + 1, vals@.len() as int));
                k = k + 1;
            } else {
                assert(vs.len() == 0);
            }
            i = i + 2;
        } else {
            assert(!starts_with_hole(rest));
            assert(rest.drop_first() == pattern@.subrange(i + 1, n as int));
            let c = pattern.substring_char(i, i + 1);
            assert(c@ == seq![rest[0]]);
            out.append(c);
            i = i + 1;
        }
    }
    assert(pattern@.subrange(n as int, n as int).len() == 0);
    out
}

/// Whether `c` is an ASCII lowercase letter.
pub open spec fn is_az(c: char) -> bool {
    'a' <= c && c <= 'z'
}

/// Whether every character of `s` is an ASCII lowercase letter.
pub open spec fn all_az(s: Seq<char>) -> bool {
    forall|i: int| 0 <= i < s.len() ==> is_az(#[trigger] s[i])
}

/// The ASCII lowercase letters of `s`, in order; every other character is
/// dropped.
pub open spec fn ascii_letters(s: Seq<char>) -> Seq<char>
    decreases s.len(),
{
    if s.len() == 0 {
        Seq::empty()
    } else if is_az(s.last()) {
        ascii_letters(s.drop_last()).push(s.last())
    } else {
        ascii_letters(s.drop_last())
    }
}

/// What `str::to_lowercase` returns for a string.
pub uninterp spec fn lower_of(s: Seq<char>) -> Seq<char>;

/// What `deunicode::deunicode` returns for a string.
pub uninterp spec fn transliteration_of(s: Seq<char>) -> Seq<char>;

/// What `char::to_uppercase` yields for a character, collected.
pub uninterp spec fn upper_of(c: char) -> Seq<char>;

/// Relies on `str::to_lowercase`: Unicode lowercase mapping, which depends on
/// the characters alone.
#[verifier::external_body]
fn to_lower(s: &str) -> (r: String)
    ensures
        r@ == lower_of(s@),
{
    s.to_lowercase()
}

/// Relies on `deunicode::deunicode`: transliteration to ASCII, which depends
/// on the characters alone.
#[verifier::external_body]
fn transliterate(s: &str) -> (r: String)
    ensures
        r@ == transliteration_of(s@),
{
    deunicode::deunicode(s)
}

/// Relies on `char::to_uppercase`: the uppercase mapping of one character,
/// which depends on that character alone.
#[verifier::external_body]
fn to_upper(c: char) -> (r: String)
    ensures
        r@ == upper_of(c),
{
    c.to_uppercase().collect()
}

/// A post-processing step applied to a sampled string.
#[derive(Clone, Copy, Debug, PartialEq, Eq, Structural)]
pub enum Transform {
    /// Unicode lowercase of the whole string.
    Lowercase,
    /// Transliterate to ASCII, lowercase, then keep only the letters a to z.
    AsciiLowercase,
    /// Uppercase the first character, keep the rest.
    CapitalizeFirst,
}

/// `s` after transliteration to ASCII and lowercasing, reduced to its ASCII
/// lowercase letters. A string made of the letters a to z alone is already in
/// that form and is kept as it is.
pub open spec fn ascii_lowercase_of(s: Seq<char>) -> Seq<char> {
    if all_az(s) {
        s
    } else {
        ascii_letters(lower_of(transliteration_of(s)))
    }
}

/// `s` with its first character uppercased; the empty string stays empty.
pub open spec fn capitalized(s: Seq<char>) -> Seq<char> {
    if s.len() == 0 {
        s
    } else {
        upper_of(s[0]) + s.drop_first()
    }
}

/// The result of applying `t` to `s`.
pub open spec fn transformed(t: Transform, s: Seq<char>) -> Seq<char> {
    match t {
        Transform::Lowercase => lower_of(s),
        Transform::AsciiLowercase => ascii_lowercase_of(s),
        Transform::CapitalizeFirst => capitalized(s),
    }
}

proof fn lemma_ascii_letters_all_az(s: Seq<char>)
    ensures
        all_az(ascii_letters(s)),
    decreases s.len(),
{
    if s.len() > 0 {
        lemma_ascii_letters_all_az(s.drop_last());
    }
}

/// The ASCII lowercase transform is idempotent: applying it to its own
/// output changes nothing.
pub proof fn ascii_lowercase_idempotent(s: Seq<char>)
    ensures
        ascii_lowercase_of(ascii_lowercase_of(s)) == ascii_lowercase_of(s),
{
    if !all_az(s) {
        lemma_ascii_letters_all_az(lower_of(transliteration_of(s)));
    }
}

/// Keeps the ASCII lowercase letters of `s`, in order.
pub fn keep_ascii_letters(s: &str) -> (r: String)
    ensures
        r@ == ascii_letters(s@),
{
    let n = s.unicode_len();
    let mut out = String::new();
    let mut i: usize = 0;
    while i < n
        invariant
            n == s@.len(),
            i <= n,
            out@ == ascii_letters(s@.subrange(0, i as int)),
        decreases n - i,
    {
        let c = s.get_char(i);
        assert(s@.subrange(0, i + 1).drop_last() == s@.subrange(0, i as int));
        if 'a' <= c && c <= 'z' {
            let one = s.substring_char(i, i + 1);
            assert(one@ == seq![c]);
            out.append(one);
        }
        i = i + 1;
    }
    assert(s@.subrange(0, n as int) == s@);
    out
}

/// Whether every character of `s` is one of the letters a to z.
pub fn is_ascii_letters(s: &str) -> (r: bool)
    ensures
        r == all_az(s@),
{
    let n = s.unicode_len();
    let mut i: usize = 0;
    while i < n
        invariant
            n == s@.len(),
            i <= n,
            forall|j: int| 0 <= j < i ==> is_az(#[trigger] s@[j]),
        decreases n - i,
    {
        let c = s.get_char(i);
        if !('a' <= c && c <= 'z') {
            return false;
        }
        i = i + 1;
    }
    true
}

/// Unicode lowercase of `s`.
pub fn lowercase(s: &str) -> (r: String)
    ensures
        r@ == lower_of(s@),
{
    to_lower(s)
}

/// Transliterates `s` to ASCII, lowercases it and keeps only the letters a
/// to z. The result may be empty.
pub fn ascii_lowercase(s: &str) -> (r: String)
    ensures
        r@ == ascii_lowercase_of(s@),
{
    if is_ascii_letters(s) {
        return s.to_owned();
    }
    let plain = transliterate(s);
    let lower = to_lower(plain.as_str());
    keep_ascii_letters(lower.as_str())
}

/// Uppercases the first character of `s` and keeps the rest; the empty string
/// is returned as it is.
pub fn capitalize_first(s: &str) -> (r: String)
    ensures
        r@ == capitalized(s@),
{
    let n = s.unicode_len();
    if n == 0 {
        return String::new();
    }
    let mut out = to_upper(s.get_char(0));
    out.append(s.substring_char(1, n));
    assert(s@.subrange(1, n as int) == s@.drop_first());
    out
}

/// Applies the transform `t` to `s`.
pub fn apply(t: Transform, s: &str) -> (r: String)
    ensures
        r@ == transformed(t, s@),
{
    match t {
        Transform::Lowercase => lowercase(s),
        Transform::AsciiLowercase => ascii_lowercase(s),
        Transform::CapitalizeFirst => capitalize_first(s),
    }
}

/// Number of characters before the first line feed of `s`, or its length
/// when it has none.
pub open spec fn line_end(s: Seq<char>) -> nat
    decreases s.len(),
{
    if s.len() == 0 || s[0] == '\n' {
        0
    } else {
        1 + line_end(s.drop_first())
    }
}

/// A line without its trailing carriage return, if it has one.
pub open spec fn strip_cr(l: Seq<char>) -> Seq<char> {
    if l.len() > 0 && l.last() == '\r' {
        l.drop_last()
    } else {
        l
    }
}

/// The lines of `s`: the pieces between line feeds, each line ended by a
/// line feed losing a carriage return just before it. A final line feed
/// ends the last line and starts no new one; an empty text has no lines.
pub open spec fn lines_of(s: Seq<char>) -> Seq<Seq<char>>
    decreases s.len(),
{
    if s.len() == 0 {
        Seq::empty()
    } else {
        let e = line_end(s);
        if e < s.len() {
            seq![strip_cr(s.subrange(0, e as int))] + lines_of(s.subrange(e as int + 1, s.len() as int))
        } else {
            seq![s]
        }
    }
}

proof fn lemma_line_end(s: Seq<char>, k: int)
    requires
        0 <= k <= s.len(),
        forall|j: int| 0 <= j < k ==> s[j] != '\n',
        k == s.len() || s[k] == '\n',
    ensures
        line_end(s) == k,
    decreases k,
{
    if k > 0 {
        lemma_line_end(s.drop_first(), k - 1);
    }
}

/// `text[start..end]` as a new string, without a trailing carriage return.
fn line_at(text: &str, start: usize, end: usize) -> (r: String)
    requires
        start <= end <= text@.len(),
    ensures
        r@ == strip_cr(text@.subrange(start as int, end as int)),
{
    let ghost l = text@.subrange(start as int, end as int);
    if start < end && text.get_char(end - 1) == '\r' {
        assert(l.drop_last() == text@.subrange(start as int, end - 1));
        text.substring_char(start, end - 1).to_owned()
    } else {
        text.substring_char(start, end).to_owned()
    }
}

/// Splits `text` into its lines.
pub fn split_lines(text: &str) -> (r: Vec<String>)
    ensures
        views(r@) == lines_of(text@),
{
    let n = text.unicode_len();
    let mut out: Vec<String> = Vec::new();
    let mut start: usize = 0;
    let mut i: usize = 0;
    assert(text@.subrange(0, n as int) == text@);
    while i < n
        invariant
            n == text@.len(),
            start <= i <= n,
            forall|j: int| start <= j < i ==> text@[j] != '\n',
            views(out@) + lines_of(text@.subrange(start as int, n as int)) == lines_of(text@),
        decreases n - i,
    {
        if text.get_char(i) == '\n' {
            let ghost rest = text@.subrange(start as int, n as int);
            proof {
                lemma_line_end(rest, i - start);
                assert(rest.subrange(0, i - start) == text@.subrange(start as int, i as int));
                assert(rest.subrange(i - start + 1, rest.len() as int) == text@.subrange(i + 1, n as int));
            }
            let line = line_at(text, start, i);
            out.push(line);
            assert(views(out@) == views(out@.drop_last()).push(line@));
            assert(views(out@) + lines_of(text@.subrange(i + 1, n as int)) =~= lines_of(text@));
            start = i + 1;
        }
        i = i + 1;
    }
    if start < n {
        let ghost rest = text@.subrange(start as int, n as int);
        proof {
            lemma_line_end(rest, n - start);
            assert(rest.subrange(0, n - start) == rest);
        }
        let line = text.substring_char(start, n).to_owned();
        out.push(line);
        assert(views(out@) == views(out@.drop_last()).push(line@));
        assert(views(out@) =~= lines_of(text@));
    } else {
        assert(views(out@) =~= lines_of(text@));
    }
    out
}

} // verus!
