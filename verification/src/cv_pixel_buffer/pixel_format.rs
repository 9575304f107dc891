//! Pixel formats are named by four-character codes; the foreign runtime takes
//! them as 32-bit numbers.

use core_utils_rs::four_char_code::FourCharCode;
use vstd::prelude::*;

verus! {

#[verifier::external_type_specification]
#[verifier::external_body]
pub struct ExFourCharCode(FourCharCode);

/// The 32-bit number that a four-character code stands for.
pub uninterp spec fn four_char_code_value(code: FourCharCode) -> u32;

/// `FourCharCode::as_u32`: hands out the number that the code wraps. The
/// contract only gives that number its name; it depends on nothing but the code.
#[verifier::external_body]
pub(crate) fn code_value(code: &FourCharCode) -> (value: u32)
    ensures
        value == four_char_code_value(*code),
{
    code.as_u32()
}

} // verus!
