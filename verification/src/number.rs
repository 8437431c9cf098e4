//! How a chapter asks to be numbered.

use vstd::prelude::*;

verus! {

/// The numbering that a chapter asks for.
#[derive(Debug, Clone, Copy, PartialEq, Eq, Structural)]
pub enum Number {
    /// The chapter has no number and its title is not displayed.
    Hidden,
    /// The chapter has no number.
    Unnumbered,
    /// The chapter takes the number that follows the previous one.
    Default,
    /// The chapter takes this number.
    Specified(i32),
    /// A part without a number.
    UnnumberedPart,
    /// A part that takes the number that follows the previous one.
    DefaultPart,
    /// A part that takes this number.
    SpecifiedPart(i32),
}

impl Number {
    /// Whether this is the numbering of a part.
    pub open spec fn part(self) -> bool {
        self is UnnumberedPart || self is DefaultPart || self is SpecifiedPart
    }

    /// Returns `true` if this is the numbering of a part.
    pub fn is_part(&self) -> (b: bool)
        ensures
            b == self.part(),
    {
        match self {
            Number::UnnumberedPart | Number::DefaultPart | Number::SpecifiedPart(_) => true,
            _ => false,
        }
    }
}

} // verus!
