//! Generators of United States names.
use crate::grammar::produced;
use crate::random::RandomSource;
use crate::en_us::Catalog;
use vstd::prelude::*;

verus! {

/// A first name.
pub struct FirstName(String);

impl View for FirstName {
    type V = Seq<char>;

    closed spec fn view(&self) -> Seq<char> {
        self.0@
    }
}

impl FirstName {
    /// Samples the generator of `c` named `first_name`.
    pub fn sample(c: &Catalog, rng: &mut RandomSource) -> (r: Self)
        requires
            c.wf(),
        ensures
            produced(c.grammar.nodes@, c.first_name as int, old(rng).drawn(), final(rng).drawn(), r@),
    {
        FirstName(c.grammar.sample(c.first_name, rng))
    }

    /// The sampled value.
    pub fn to_string(&self) -> (r: String)
        ensures
            r@ == self@,
    {
        self.0.clone()
    }
}

/// A last name.
pub struct LastName(String);

impl View for LastName {
    type V = Seq<char>;

    closed spec fn view(&self) -> Seq<char> {
        self.0@
    }
}

impl LastName {
    /// Samples the generator of `c` named `last_name`.
    pub fn sample(c: &Catalog, rng: &mut RandomSource) -> (r: Self)
        requires
            c.wf(),
        ensures
            produced(c.grammar.nodes@, c.last_name as int, old(rng).drawn(), final(rng).drawn(), r@),
    {
        LastName(c.grammar.sample(c.last_name, rng))
    }

    /// The sampled value.
    pub fn to_string(&self) -> (r: String)
        ensures
            r@ == self@,
    {
        self.0.clone()
    }
}

/// An honorific such as "Mr.".
pub struct NamePrefix(String);

impl View for NamePrefix {
    type V = Seq<char>;

    closed spec fn view(&self) -> Seq<char> {
        self.0@
    }
}

impl NamePrefix {
    /// Samples the generator of `c` named `name_prefix`.
    pub fn sample(c: &Catalog, rng: &mut RandomSource) -> (r: Self)
        requires
            c.wf(),
        ensures
            produced(c.grammar.nodes@, c.name_prefix as int, old(rng).drawn(), final(rng).drawn(), r@),
    {
        NamePrefix(c.grammar.sample(c.name_prefix, rng))
    }

    /// The sampled value.
    pub fn to_string(&self) -> (r: String)
        ensures
            r@ == self@,
    {
        self.0.clone()
    }
}

/// A name suffix such as "Jr.".
pub struct NameSuffix(String);

impl View for NameSuffix {
    type V = Seq<char>;

    closed spec fn view(&self) -> Seq<char> {
        self.0@
    }
}

impl NameSuffix {
    /// Samples the generator of `c` named `name_suffix`.
    pub fn sample(c: &Catalog, rng: &mut RandomSource) -> (r: Self)
        requires
            c.wf(),
        ensures
            produced(c.grammar.nodes@, c.name_suffix as int, old(rng).drawn(), final(rng).drawn(), r@),
    {
        NameSuffix(c.grammar.sample(c.name_suffix, rng))
    }

    /// The sampled value.
    pub fn to_string(&self) -> (r: String)
        ensures
            r@ == self@,
    {
        self.0.clone()
    }
}

/// A full name: first and last name, with an honorific, a suffix, both or neither.
pub struct FullName(String);

impl View for FullName {
    type V = Seq<char>;

    closed spec fn view(&self) -> Seq<char> {
        self.0@
    }
}

impl FullName {
    /// Samples the generator of `c` named `full_name`.
    pub fn sample(c: &Catalog, rng: &mut RandomSource) -> (r: Self)
        requires
            c.wf(),
        ensures
            produced(c.grammar.nodes@, c.full_name as int, old(rng).drawn(), final(rng).drawn(), r@),
    {
        FullName(c.grammar.sample(c.full_name, rng))
    }

    /// The sampled value.
    pub fn to_string(&self) -> (r: String)
        ensures
            r@ == self@,
    {
        self.0.clone()
    }
}

} // verus!
