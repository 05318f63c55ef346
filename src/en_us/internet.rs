//! Generators of domain names, user names and email addresses.
use crate::grammar::produced;
use crate::random::RandomSource;
use crate::en_us::Catalog;
use vstd::prelude::*;

verus! {

/// A domain name: a last name in ASCII lowercase and a top-level domain.
pub struct Domain(String);

impl View for Domain {
    type V = Seq<char>;

    closed spec fn view(&self) -> Seq<char> {
        self.0@
    }
}

impl Domain {
    /// Samples the generator of `c` named `domain`.
    pub fn sample(c: &Catalog, rng: &mut RandomSource) -> (r: Self)
        requires
            c.wf(),
        ensures
            produced(c.grammar.nodes@, c.domain as int, old(rng).drawn(), final(rng).drawn(), r@),
    {
        Domain(c.grammar.sample(c.domain, rng))
    }

    /// The sampled value.
    pub fn to_string(&self) -> (r: String)
        ensures
            r@ == self@,
    {
        self.0.clone()
    }
}

/// A user name of ASCII lowercase letters, maybe followed by digits.
pub struct Username(String);

impl View for Username {
    type V = Seq<char>;

    closed spec fn view(&self) -> Seq<char> {
        self.0@
    }
}

impl Username {
    /// Samples the generator of `c` named `username`.
    pub fn sample(c: &Catalog, rng: &mut RandomSource) -> (r: Self)
        requires
            c.wf(),
        ensures
            produced(c.grammar.nodes@, c.username as int, old(rng).drawn(), final(rng).drawn(), r@),
    {
        Username(c.grammar.sample(c.username, rng))
    }

    /// The sampled value.
    pub fn to_string(&self) -> (r: String)
        ensures
            r@ == self@,
    {
        self.0.clone()
    }
}

/// An email address.
pub struct Email(String);

impl View for Email {
    type V = Seq<char>;

    closed spec fn view(&self) -> Seq<char> {
        self.0@
    }
}

impl Email {
    /// Samples the generator of `c` named `email`.
    pub fn sample(c: &Catalog, rng: &mut RandomSource) -> (r: Self)
        requires
            c.wf(),
        ensures
            produced(c.grammar.nodes@, c.email as int, old(rng).drawn(), final(rng).drawn(), r@),
    {
        Email(c.grammar.sample(c.email, rng))
    }

    /// The sampled value.
    pub fn to_string(&self) -> (r: String)
        ensures
            r@ == self@,
    {
        self.0.clone()
    }
}

} // verus!
