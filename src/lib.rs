//! Seedable generators of fake data built by composing small random
//! generators: uniform choice from a pool of values, uniform choice among
//! templates whose placeholders are filled by sub-generators, and pure string
//! transforms applied to a sub-generator's output.
pub mod grammar;
pub mod en_us;
pub mod fr_fr;
pub mod lorem;
pub mod random;
pub mod text;
pub mod util;
