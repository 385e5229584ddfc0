use vstd::prelude::*;
use crate::error::CompileError;

pub mod boolean;
pub mod internet;
pub mod lorem;
pub mod name;
pub mod number;
pub mod composite;

verus! {

/// Generators built from a tag name and a locale code.
pub trait FakeElement: Sized {
    fn new(fake_type: String, lang: String) -> Self;
}

/// Generators built from a tag name, a locale code and a percentage.
pub trait FakeWithRatioElement: Sized {
    fn new(fake_type: String, lang: String, ratio: u8) -> Self;
}

/// Generators built from a tag name, a locale code and a format pattern.
pub trait FakeWithFormatElement: Sized {
    fn new(fake_type: String, lang: String, format: String) -> Self;
}

/// Generators built from a tag name, a locale code and a range `min..max`,
/// which must not be empty.
pub trait FakeWithRangeElement: Sized {
    fn new(fake_type: String, lang: String, min: usize, max: usize) -> Result<Self, CompileError>;
}

} // verus!
