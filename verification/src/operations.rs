//! A two-way choice of arithmetic operation on 32-bit integers.

use vstd::prelude::*;

verus! {

/// The operations that can be applied to a pair of numbers.
#[derive(Clone, Copy, Debug, PartialEq, Eq, Structural)]
pub enum VeryVerboseEnumOfThingsToDoWithNumbers {
    Add,
    Subtract,
}

/// A short name for the enum of operations.
pub type Operations = VeryVerboseEnumOfThingsToDoWithNumbers;

impl VeryVerboseEnumOfThingsToDoWithNumbers {
    /// What the operation gives on `x` and `y`, as unbounded integers.
    pub open spec fn outcome(self, x: int, y: int) -> int {
        match self {
            VeryVerboseEnumOfThingsToDoWithNumbers::Add => x + y,
            VeryVerboseEnumOfThingsToDoWithNumbers::Subtract => x - y,
        }
    }

    /// Applies the operation. The outcome has to fit in 32 bits.
    pub fn run(&self, x: i32, y: i32) -> (r: i32)
        requires
            i32::MIN <= self.outcome(x as int, y as int) <= i32::MAX,
        ensures
            r == self.outcome(x as int, y as int),
    {
        match self {
            Self::Add => x + y,
            Self::Subtract => x - y,
        }
    }
}

} // verus!
