//! Beats per minute of a pattern.

use crate::text::{number_then, signed_decimal};
use vstd::prelude::*;

verus! {

/// Beats per minute of a pattern.
#[derive(Debug)]
pub struct BPM(i32);

impl View for BPM {
    type V = int;

    closed spec fn view(&self) -> int {
        self.0 as int
    }
}

impl BPM {
    /// The values that the parser admits.
    pub open spec fn admits(i: int) -> bool {
        0 <= i <= 999
    }

    /// The reason given for a value that is not admitted.
    pub open spec fn rejection(i: int) -> Seq<char> {
        signed_decimal(i) + " is not a valid BPM value. "@
    }

    #[verifier::type_invariant]
    closed spec fn in_range(self) -> bool {
        Self::admits(self.0 as int)
    }

    /// Admits `i` when it lies between 0 and 999, both included.
    pub fn parse(i: i32) -> (parsed: Result<BPM, String>)
        ensures
            parsed is Ok <==> Self::admits(i as int),
            parsed matches Ok(v) ==> v@ == i,
            parsed matches Err(reason) ==> reason@ == Self::rejection(i as int),
    {
        if i > 999 || i < 0 {
            Err(number_then(i, " is not a valid BPM value. "))
        } else {
            Ok(BPM(i))
        }
    }

    /// The number held, which is always one that the parser admits.
    pub fn as_ref(&self) -> (held: &i32)
        ensures
            *held == self@,
            Self::admits(*held as int),
    {
        proof {
            use_type_invariant(self);
        }
        &self.0
    }
}

} // verus!
