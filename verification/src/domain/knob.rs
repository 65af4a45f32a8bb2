//! Position of a device knob, as a percentage.

use crate::text::{number_then, signed_decimal};
use vstd::prelude::*;

verus! {

/// Position of a device knob, as a percentage.
#[derive(Debug)]
pub struct Knob(i32);

impl View for Knob {
    type V = int;

    closed spec fn view(&self) -> int {
        self.0 as int
    }
}

impl Knob {
    /// The values that the parser admits.
    pub open spec fn admits(i: int) -> bool {
        0 <= i <= 100
    }

    /// The reason given for a value that is not admitted.
    pub open spec fn rejection(i: int) -> Seq<char> {
        signed_decimal(i) + " is not a valid knob value. "@
    }

    #[verifier::type_invariant]
    closed spec fn in_range(self) -> bool {
        Self::admits(self.0 as int)
    }

    /// Admits `i` when it lies between 0 and 100, both included.
    pub fn parse(i: i32) -> (parsed: Result<Knob, String>)
        ensures
            parsed is Ok <==> Self::admits(i as int),
            parsed matches Ok(v) ==> v@ == i,
            parsed matches Err(reason) ==> reason@ == Self::rejection(i as int),
    {
        if i > 100 || i < 0 {
            Err(number_then(i, " is not a valid knob value. "))
        } else {
            Ok(Knob(i))
        }
    }

    /// The number held, which is always one that the parser admits.
    pub fn as_ref(&self) -> (held: &i32)
        ensures
            *held == self@,
            Self::admits(*held as int),
    {
        proof {
            use_type_invariant(self);
        }
        &self.0
    }
}

} // verus!
