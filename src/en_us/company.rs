//! Generators of company names and slogans.
use crate::grammar::produced;
use crate::random::RandomSource;
use crate::en_us::Catalog;
use vstd::prelude::*;

verus! {

/// A company name.
pub struct CompanyName(String);

impl View for CompanyName {
    type V = Seq<char>;

    closed spec fn view(&self) -> Seq<char> {
        self.0@
    }
}

impl CompanyName {
    /// Samples the generator of `c` named `company_name`.
    pub fn sample(c: &Catalog, rng: &mut RandomSource) -> (r: Self)
        requires
            c.wf(),
        ensures
            produced(c.grammar.nodes@, c.company_name as int, old(rng).drawn(), final(rng).drawn(), r@),
    {
        CompanyName(c.grammar.sample(c.company_name, rng))
    }

    /// The sampled value.
    pub fn to_string(&self) -> (r: String)
        ensures
            r@ == self@,
    {
        self.0.clone()
    }
}

/// A company slogan.
pub struct Slogan(String);

impl View for Slogan {
    type V = Seq<char>;

    closed spec fn view(&self) -> Seq<char> {
        self.0@
    }
}

impl Slogan {
    /// Samples the generator of `c` named `slogan`.
    pub fn sample(c: &Catalog, rng: &mut RandomSource) -> (r: Self)
        requires
            c.wf(),
        ensures
            produced(c.grammar.nodes@, c.slogan as int, old(rng).drawn(), final(rng).drawn(), r@),
    {
        Slogan(c.grammar.sample(c.slogan, rng))
    }

    /// The sampled value.
    pub fn to_string(&self) -> (r: String)
        ensures
            r@ == self@,
    {
        self.0.clone()
    }
}

} // verus!
