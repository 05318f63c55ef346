//! Small generators used as building blocks of larger ones.
use crate::grammar::{produced, Grammar};
use crate::random::RandomSource;
use crate::text::{apply, ascii_lowercase_of, capitalized, Transform};
use vstd::prelude::*;

verus! {

/// The decimal digits, in order.
pub open spec fn digit_chars() -> Seq<char> {
    seq!['0', '1', '2', '3', '4', '5', '6', '7', '8', '9']
}

/// The ASCII lowercase letters, in order.
pub open spec fn letter_chars() -> Seq<char> {
    seq![
        'a', 'b', 'c', 'd', 'e', 'f', 'g', 'h', 'i', 'j', 'k', 'l', 'm',
        'n', 'o', 'p', 'q', 'r', 's', 't', 'u', 'v', 'w', 'x', 'y', 'z',
    ]
}

/// The decimal digits as a string.
pub fn digits() -> (r: &'static str)
    ensures
        r@ == digit_chars(),
{
    let s = "0123456789";
    proof {
        reveal_strlit("0123456789");
        assert(s@ =~= digit_chars());
    }
    s
}

/// The ASCII lowercase letters as a string.
pub fn letters() -> (r: &'static str)
    ensures
        r@ == letter_chars(),
{
    let s = "abcdefghijklmnopqrstuvwxyz";
    proof {
        reveal_strlit("abcdefghijklmnopqrstuvwxyz");
        assert(s@ =~= letter_chars());
    }
    s
}

/// Whether a source went from the log `before` to the log `after` by one
/// draw `d` below the length of `chars`, and `out` is the character at `d`
/// of `chars`, as a string.
pub open spec fn one_char_drawn(chars: Seq<char>, before: Seq<int>, after: Seq<int>, out: Seq<char>) -> bool {
    &&& after.len() == before.len() + 1
    &&& after.drop_last() == before
    &&& 0 <= after.last() < chars.len()
    &&& out == seq![chars[after.last()]]
}

/// Picks one character of `chars` uniformly.
fn draw_char(chars: &str, rng: &mut RandomSource) -> (r: String)
    requires
        chars@.len() > 0,
    ensures
        one_char_drawn(chars@, old(rng).drawn(), final(rng).drawn(), r@),
{
    let n = chars.unicode_len();
    let ghost before = rng.drawn();
    let k = rng.below(n);
    assert(rng.drawn().drop_last() =~= before);
    let one = chars.substring_char(k, k + 1);
    assert(one@ =~= seq![chars@[k as int]]);
    one.to_owned()
}

/// An ASCII decimal digit, 0 to 9.
pub struct AsciiDigit(String);

impl View for AsciiDigit {
    type V = Seq<char>;

    closed spec fn view(&self) -> Seq<char> {
        self.0@
    }
}

impl AsciiDigit {
    /// Draws a digit uniformly.
    pub fn sample(rng: &mut RandomSource) -> (r: Self)
        ensures
            one_char_drawn(digit_chars(), old(rng).drawn(), final(rng).drawn(), r@),
    {
        AsciiDigit(draw_char(digits(), rng))
    }

    /// The digit as a string.
    pub fn to_string(&self) -> (r: String)
        ensures
            r@ == self@,
    {
        self.0.clone()
    }
}

/// An ASCII lowercase letter, a to z.
pub struct AsciiLowercase(String);

impl View for AsciiLowercase {
    type V = Seq<char>;

    closed spec fn view(&self) -> Seq<char> {
        self.0@
    }
}

impl AsciiLowercase {
    /// Draws a letter uniformly.
    pub fn sample(rng: &mut RandomSource) -> (r: Self)
        ensures
            one_char_drawn(letter_chars(), old(rng).drawn(), final(rng).drawn(), r@),
    {
        AsciiLowercase(draw_char(letters(), rng))
    }

    /// The letter as a string.
    pub fn to_string(&self) -> (r: String)
        ensures
            r@ == self@,
    {
        self.0.clone()
    }
}

/// A sample of another generator reduced to ASCII lowercase letters: it is
/// transliterated to ASCII and lowercased, and every character outside a to
/// z is dropped.
pub struct ToAsciiLowercase(String);

impl View for ToAsciiLowercase {
    type V = Seq<char>;

    closed spec fn view(&self) -> Seq<char> {
        self.0@
    }
}

impl ToAsciiLowercase {
    /// Samples the generator at `inner` of `g` and reduces the result.
    pub fn sample(g: &Grammar, inner: usize, rng: &mut RandomSource) -> (r: Self)
        requires
            g.wf(),
            inner < g.nodes@.len(),
        ensures
            exists|v: Seq<char>|
                produced(g.nodes@, inner as int, old(rng).drawn(), final(rng).drawn(), v) && r@
                    == #[trigger] ascii_lowercase_of(v),
    {
        let v = g.sample(inner, rng);
        ToAsciiLowercase(apply(Transform::AsciiLowercase, v.as_str()))
    }

    /// The reduced string.
    pub fn to_string(&self) -> (r: String)
        ensures
            r@ == self@,
    {
        self.0.clone()
    }
}

/// A sample of another generator with its first character uppercased.
pub struct CapitalizeFirstLetter(String);

impl View for CapitalizeFirstLetter {
    type V = Seq<char>;

    closed spec fn view(&self) -> Seq<char> {
        self.0@
    }
}

impl CapitalizeFirstLetter {
    /// Samples the generator at `inner` of `g` and capitalizes the result.
    pub fn sample(g: &Grammar, inner: usize, rng: &mut RandomSource) -> (r: Self)
        requires
            g.wf(),
            inner < g.nodes@.len(),
        ensures
            exists|v: Seq<char>|
                produced(g.nodes@, inner as int, old(rng).drawn(), final(rng).drawn(), v) && r@
                    == #[trigger] capitalized(v),
    {
        let v = g.sample(inner, rng);
        CapitalizeFirstLetter(apply(Transform::CapitalizeFirst, v.as_str()))
    }

    /// The capitalized string.
    pub fn to_string(&self) -> (r: String)
        ensures
            r@ == self@,
    {
        self.0.clone()
    }
}

} // verus!
