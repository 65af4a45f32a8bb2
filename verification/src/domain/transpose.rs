//! Octave shift of a step.

use crate::text::{same_text, text_then};
use vstd::prelude::*;

verus! {

/// Octave shift of a step.
#[derive(Debug, Clone, Copy, PartialEq, Eq, Structural)]
pub enum Transpose {
    Up,
    Down,
}

impl Transpose {
    /// The text by which a variant is written outside the program.
    pub open spec fn label(self) -> Seq<char> {
        match self {
            Transpose::Up => "up"@,
            Transpose::Down => "down"@,
        }
    }

    /// The variant that a text writes, if it writes one.
    pub open spec fn from_label(s: Seq<char>) -> Option<Transpose> {
        if s == "up"@ {
            Some(Transpose::Up)
        } else if s == "down"@ {
            Some(Transpose::Down)
        } else {
            None
        }
    }

    /// The reason given for a text that writes no variant.
    pub open spec fn rejection(s: Seq<char>) -> Seq<char> {
        s + " is not a valid transpose. Can only be one of 'up', 'down'"@
    }

    /// The text by which this variant is written outside the program.
    pub fn as_ref(&self) -> (label: &'static str)
        ensures
            label@ == self.label(),
    {
        match self {
            Transpose::Up => "up",
            Transpose::Down => "down",
        }
    }

    /// Reads a shift from its text; any other text is rejected.
    pub fn parse(s: &str) -> (parsed: Result<Transpose, String>)
        ensures
            match parsed {
                Ok(v) => Self::from_label(s@) == Some(v),
                Err(reason) => Self::from_label(s@) is None && reason@ == Self::rejection(s@),
            },
    {
        if same_text(s, "up") {
            Ok(Transpose::Up)
        } else if same_text(s, "down") {
            Ok(Transpose::Down)
        } else {
            Err(text_then(s, " is not a valid transpose. Can only be one of 'up', 'down'"))
        }
    }

    /// Writing a variant and reading the text back gives the same variant.
    pub proof fn lemma_label_round_trip(self)
        ensures
            Self::from_label(self.label()) == Some(self),
    {
        Self::reveal_labels();
    }

    /// A text that writes a variant is that variant's own text.
    pub proof fn lemma_from_label_sound(s: Seq<char>)
        ensures
            Self::from_label(s) matches Some(v) ==> v.label() == s,
    {
    }

    proof fn reveal_labels()
        ensures
            "up"@.len() == 2,
            "up"@[0] == 'u',
            "down"@.len() == 4,
            "down"@[0] == 'd',
    {
        reveal_strlit("up");
        reveal_strlit("down");
    }
}

} // verus!
