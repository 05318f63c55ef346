//! Generators of French postal addresses.
use crate::grammar::produced;
use crate::random::RandomSource;
use crate::fr_fr::Catalog;
use vstd::prelude::*;

verus! {

/// A city name.
pub struct CityName(String);

impl View for CityName {
    type V = Seq<char>;

    closed spec fn view(&self) -> Seq<char> {
        self.0@
    }
}

impl CityName {
    /// Samples the generator of `c` named `city_name`.
    pub fn sample(c: &Catalog, rng: &mut RandomSource) -> (r: Self)
        requires
            c.wf(),
        ensures
            produced(c.grammar.nodes@, c.city_name as int, old(rng).drawn(), final(rng).drawn(), r@),
    {
        CityName(c.grammar.sample(c.city_name, rng))
    }

    /// The sampled value.
    pub fn to_string(&self) -> (r: String)
        ensures
            r@ == self@,
    {
        self.0.clone()
    }
}

/// A street name: a kind of street and a name.
pub struct StreetName(String);

impl View for StreetName {
    type V = Seq<char>;

    closed spec fn view(&self) -> Seq<char> {
        self.0@
    }
}

impl StreetName {
    /// Samples the generator of `c` named `street_name`.
    pub fn sample(c: &Catalog, rng: &mut RandomSource) -> (r: Self)
        requires
            c.wf(),
        ensures
            produced(c.grammar.nodes@, c.street_name as int, old(rng).drawn(), final(rng).drawn(), r@),
    {
        StreetName(c.grammar.sample(c.street_name, rng))
    }

    /// The sampled value.
    pub fn to_string(&self) -> (r: String)
        ensures
            r@ == self@,
    {
        self.0.clone()
    }
}

/// A building number of one to three digits and a street name.
pub struct StreetAddress(String);

impl View for StreetAddress {
    type V = Seq<char>;

    closed spec fn view(&self) -> Seq<char> {
        self.0@
    }
}

impl StreetAddress {
    /// Samples the generator of `c` named `street_address`.
    pub fn sample(c: &Catalog, rng: &mut RandomSource) -> (r: Self)
        requires
            c.wf(),
        ensures
            produced(c.grammar.nodes@, c.street_address as int, old(rng).drawn(), final(rng).drawn(), r@),
    {
        StreetAddress(c.grammar.sample(c.street_address, rng))
    }

    /// The sampled value.
    pub fn to_string(&self) -> (r: String)
        ensures
            r@ == self@,
    {
        self.0.clone()
    }
}

/// An apartment number or a floor.
pub struct SecondaryAddress(String);

impl View for SecondaryAddress {
    type V = Seq<char>;

    closed spec fn view(&self) -> Seq<char> {
        self.0@
    }
}

impl SecondaryAddress {
    /// Samples the generator of `c` named `secondary_address`.
    pub fn sample(c: &Catalog, rng: &mut RandomSource) -> (r: Self)
        requires
            c.wf(),
        ensures
            produced(c.grammar.nodes@, c.secondary_address as int, old(rng).drawn(), final(rng).drawn(), r@),
    {
        SecondaryAddress(c.grammar.sample(c.secondary_address, rng))
    }

    /// The sampled value.
    pub fn to_string(&self) -> (r: String)
        ensures
            r@ == self@,
    {
        self.0.clone()
    }
}

/// A region.
pub struct Division(String);

impl View for Division {
    type V = Seq<char>;

    closed spec fn view(&self) -> Seq<char> {
        self.0@
    }
}

impl Division {
    /// Samples the generator of `c` named `division`.
    pub fn sample(c: &Catalog, rng: &mut RandomSource) -> (r: Self)
        requires
            c.wf(),
        ensures
            produced(c.grammar.nodes@, c.division as int, old(rng).drawn(), final(rng).drawn(), r@),
    {
        Division(c.grammar.sample(c.division, rng))
    }

    /// The sampled value.
    pub fn to_string(&self) -> (r: String)
        ensures
            r@ == self@,
    {
        self.0.clone()
    }
}

/// A postal code of five digits.
pub struct PostalCode(String);

impl View for PostalCode {
    type V = Seq<char>;

    closed spec fn view(&self) -> Seq<char> {
        self.0@
    }
}

impl PostalCode {
    /// Samples the generator of `c` named `postal_code`.
    pub fn sample(c: &Catalog, rng: &mut RandomSource) -> (r: Self)
        requires
            c.wf(),
        ensures
            produced(c.grammar.nodes@, c.postal_code as int, old(rng).drawn(), final(rng).drawn(), r@),
    {
        PostalCode(c.grammar.sample(c.postal_code, rng))
    }

    /// The sampled value.
    pub fn to_string(&self) -> (r: String)
        ensures
            r@ == self@,
    {
        self.0.clone()
    }
}

/// A postal address on four or five lines, the last one "FRANCE", each ending in a line feed.
pub struct Address(String);

impl View for Address {
    type V = Seq<char>;

    closed spec fn view(&self) -> Seq<char> {
        self.0@
    }
}

impl Address {
    /// Samples the generator of `c` named `address`.
    pub fn sample(c: &Catalog, rng: &mut RandomSource) -> (r: Self)
        requires
            c.wf(),
        ensures
            produced(c.grammar.nodes@, c.address as int, old(rng).drawn(), final(rng).drawn(), r@),
    {
        Address(c.grammar.sample(c.address, rng))
    }

    /// The sampled value.
    pub fn to_string(&self) -> (r: String)
        ensures
            r@ == self@,
    {
        self.0.clone()
    }
}

} // verus!
