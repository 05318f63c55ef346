//! Generators of French company names.
use crate::grammar::produced;
use crate::random::RandomSource;
use crate::fr_fr::Catalog;
use vstd::prelude::*;

verus! {

/// A company name.
pub struct CompanyName(String);

impl View for CompanyName {
    type V = Seq<char>;

    closed spec fn view(&self) -> Seq<char> {
        self.0@
    }
}

impl CompanyName {
    /// Samples the generator of `c` named `company_name`.
    pub fn sample(c: &Catalog, rng: &mut RandomSource) -> (r: Self)
        requires
            c.wf(),
        ensures
            produced(c.grammar.nodes@, c.company_name as int, old(rng).drawn(), final(rng).drawn(), r@),
    {
        CompanyName(c.grammar.sample(c.company_name, rng))
    }

    /// The sampled value.
    pub fn to_string(&self) -> (r: String)
        ensures
            r@ == self@,
    {
        self.0.clone()
    }
}

} // verus!
