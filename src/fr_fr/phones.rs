//! Generators of French phone numbers.
use crate::grammar::produced;
use crate::random::RandomSource;
use crate::fr_fr::Catalog;
use vstd::prelude::*;

verus! {

/// A phone number in the form 0x xx xx xx xx.
pub struct PhoneNumber(String);

impl View for PhoneNumber {
    type V = Seq<char>;

    closed spec fn view(&self) -> Seq<char> {
        self.0@
    }
}

impl PhoneNumber {
    /// Samples the generator of `c` named `phone_number`.
    pub fn sample(c: &Catalog, rng: &mut RandomSource) -> (r: Self)
        requires
            c.wf(),
        ensures
            produced(c.grammar.nodes@, c.phone_number as int, old(rng).drawn(), final(rng).drawn(), r@),
    {
        PhoneNumber(c.grammar.sample(c.phone_number, rng))
    }

    /// The sampled value.
    pub fn to_string(&self) -> (r: String)
        ensures
            r@ == self@,
    {
        self.0.clone()
    }
}

} // verus!
