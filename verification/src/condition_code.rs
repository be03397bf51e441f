//! The named flag bits packed into the condition-code register
//! (register 15), one bit position per flag.

use vstd::prelude::*;
use crate::util::bit_of;

verus! {

/// A named flag bit of the condition-code register. The flags occupy bit
/// positions 0-10 of register 15, in the order listed here.
#[derive(Clone, Copy, Debug, PartialEq, Eq, Structural)]
pub enum ConditionCode {
    IntegerGreaterThan,
    NaturalGreaterThan,
    Equals,
    NaturalLessThan,
    IntegerLessThan,
    IntegerOverflow,
    NaturalOverflow,
    Carry,
    StackOverflow,
    StackUnderflow,
    LogicFunctionResult,
}

/// The bit position a condition code occupies in register 15.
pub open spec fn cc_bit(condition: ConditionCode) -> u16 {
    match condition {
        ConditionCode::IntegerGreaterThan => 0,
        ConditionCode::NaturalGreaterThan => 1,
        ConditionCode::Equals => 2,
        ConditionCode::NaturalLessThan => 3,
        ConditionCode::IntegerLessThan => 4,
        ConditionCode::IntegerOverflow => 5,
        ConditionCode::NaturalOverflow => 6,
        ConditionCode::Carry => 7,
        ConditionCode::StackOverflow => 8,
        ConditionCode::StackUnderflow => 9,
        ConditionCode::LogicFunctionResult => 10,
    }
}

/// Whether the flag `condition` is set in the condition-code word `word`.
pub open spec fn has_flag(word: u16, condition: ConditionCode) -> bool {
    bit_of(word, cc_bit(condition)) == 1
}

impl ConditionCode {
    /// The bit position this condition code occupies in register 15.
    pub fn bit_index(self) -> (bit: u8)
        ensures
            bit as u16 == cc_bit(self),
            bit < 11,
    {
        match self {
            ConditionCode::IntegerGreaterThan => 0,
            ConditionCode::NaturalGreaterThan => 1,
            ConditionCode::Equals => 2,
            ConditionCode::NaturalLessThan => 3,
            ConditionCode::IntegerLessThan => 4,
            ConditionCode::IntegerOverflow => 5,
            ConditionCode::NaturalOverflow => 6,
            ConditionCode::Carry => 7,
            ConditionCode::StackOverflow => 8,
            ConditionCode::StackUnderflow => 9,
            ConditionCode::LogicFunctionResult => 10,
        }
    }
}

} // verus!
