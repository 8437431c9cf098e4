//! Roman numerals, written by the numerals crate.

use vstd::prelude::*;

verus! {

/// The roman numeral of a positive number, in upper case.
pub uninterp spec fn roman_numeral(number: int) -> Seq<char>;

/// Whether a number can be written as a roman numeral here: it is positive
/// and small enough for the conversion, which takes 16 bits.
pub open spec fn has_roman(number: int) -> bool {
    1 <= number <= i16::MAX
}

/// Calls `numerals::roman::Roman::from` on a positive number and formats the
/// result in upper case: what comes back is the roman numeral of `number`,
/// the same for the same number.
#[verifier::external_body]
pub(crate) fn upper(number: i16) -> (output: String)
    requires
        number > 0,
    ensures
        output@ == roman_numeral(number as int),
{
    format!("{:X}", numerals::roman::Roman::from(number))
}

} // verus!
