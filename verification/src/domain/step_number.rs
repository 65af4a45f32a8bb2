//! Position of a step within its pattern.

use crate::text::{number_then, signed_decimal};
use vstd::prelude::*;

verus! {

/// Position of a step within its pattern.
#[derive(Debug)]
pub struct StepNumber(i32);

impl View for StepNumber {
    type V = int;

    closed spec fn view(&self) -> int {
        self.0 as int
    }
}

impl StepNumber {
    /// The values that the parser admits.
    pub open spec fn admits(i: int) -> bool {
        1 <= i <= 16
    }

    /// The reason given for a value that is not admitted.
    pub open spec fn rejection(i: int) -> Seq<char> {
        signed_decimal(i) + " is not a valid step number value. "@
    }

    #[verifier::type_invariant]
    closed spec fn in_range(self) -> bool {
        Self::admits(self.0 as int)
    }

    /// Admits `i` when it lies between 1 and 16, both included.
    pub fn parse(i: i32) -> (parsed: Result<StepNumber, String>)
        ensures
            parsed is Ok <==> Self::admits(i as int),
            parsed matches Ok(v) ==> v@ == i,
            parsed matches Err(reason) ==> reason@ == Self::rejection(i as int),
    {
        if i > 16 || i < 1 {
            Err(number_then(i, " is not a valid step number value. "))
        } else {
            Ok(StepNumber(i))
        }
    }

    /// The number held, which is always one that the parser admits.
    pub fn as_ref(&self) -> (held: &i32)
        ensures
            *held == self@,
            Self::admits(*held as int),
    {
        proof {
            use_type_invariant(self);
        }
        &self.0
    }
}

} // verus!
