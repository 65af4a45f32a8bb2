//! Octave shift of a step, kept as the text that was submitted.

use crate::text::{same_text, text_then};
use vstd::prelude::*;

verus! {

/// Octave shift of a step, kept as the text that was submitted.
#[derive(Debug)]
pub struct Octave(String);

impl View for Octave {
    type V = Seq<char>;

    closed spec fn view(&self) -> Seq<char> {
        self.0@
    }
}

impl Octave {
    /// The texts that the parser admits: exactly `up` and `down`.
    pub open spec fn admits(s: Seq<char>) -> bool {
        s == "up"@ || s == "down"@
    }

    /// The reason given for a text that is not admitted.
    pub open spec fn rejection(s: Seq<char>) -> Seq<char> {
        s + " is not a valid octave. Can only be one of 'up', 'down'"@
    }

    #[verifier::type_invariant]
    closed spec fn well_formed(self) -> bool {
        Self::admits(self.0@)
    }

    /// Admits `s` when it is exactly `up` or `down`.
    pub fn parse(s: String) -> (parsed: Result<Octave, String>)
        ensures
            parsed is Ok <==> Self::admits(s@),
            parsed matches Ok(v) ==> v@ == s@,
            parsed matches Err(reason) ==> reason@ == Self::rejection(s@),
    {
        let is_not_valid_stem = !(same_text(s.as_str(), "up") || same_text(s.as_str(), "down"));
        if is_not_valid_stem {
            Err(text_then(s.as_str(), " is not a valid octave. Can only be one of 'up', 'down'"))
        } else {
            Ok(Octave(s))
        }
    }

    /// The text held, which is always `up` or `down`.
    pub fn as_ref(&self) -> (held: &str)
        ensures
            held@ == self@,
            Self::admits(held@),
    {
        proof {
            use_type_invariant(self);
        }
        self.0.as_str()
    }
}

} // verus!
