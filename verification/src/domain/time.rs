//! Timing class of a step: a played note, a tie to the step before, or a rest.

use crate::text::{same_text, text_then};
use vstd::prelude::*;

verus! {

/// Timing class of a step: a played note, a tie to the step before, or a rest.
#[derive(Debug, Clone, Copy, PartialEq, Eq, Structural)]
pub enum Time {
    Note,
    Tied,
    Rest,
}

impl Time {
    /// The text by which a variant is written outside the program.
    pub open spec fn label(self) -> Seq<char> {
        match self {
            Time::Note => "note"@,
            Time::Tied => "tied"@,
            Time::Rest => "rest"@,
        }
    }

    /// The variant that a text writes, if it writes one.
    pub open spec fn from_label(s: Seq<char>) -> Option<Time> {
        if s == "note"@ {
            Some(Time::Note)
        } else if s == "tied"@ {
            Some(Time::Tied)
        } else if s == "rest"@ {
            Some(Time::Rest)
        } else {
            None
        }
    }

    /// The reason given for a text that writes no variant.
    pub open spec fn rejection(s: Seq<char>) -> Seq<char> {
        s + " is not a valid time. Can only be one of 'note', 'tied', 'rest'"@
    }

    /// The text by which this variant is written outside the program.
    pub fn as_ref(&self) -> (label: &'static str)
        ensures
            label@ == self.label(),
    {
        match self {
            Time::Note => "note",
            Time::Tied => "tied",
            Time::Rest => "rest",
        }
    }

    /// Reads a timing class from its text; any other text is rejected.
    pub fn parse(s: &str) -> (parsed: Result<Time, String>)
        ensures
            match parsed {
                Ok(v) => Self::from_label(s@) == Some(v),
                Err(reason) => Self::from_label(s@) is None && reason@ == Self::rejection(s@),
            },
    {
        if same_text(s, "note") {
            Ok(Time::Note)
        } else if same_text(s, "tied") {
            Ok(Time::Tied)
        } else if same_text(s, "rest") {
            Ok(Time::Rest)
        } else {
            Err(text_then(s, " is not a valid time. Can only be one of 'note', 'tied', 'rest'"))
        }
    }

    /// Writing a variant and reading the text back gives the same variant.
    pub proof fn lemma_label_round_trip(self)
        ensures
            Self::from_label(self.label()) == Some(self),
    {
        Self::reveal_labels();
    }

    /// A text that writes a variant is that variant's own text.
    pub proof fn lemma_from_label_sound(s: Seq<char>)
        ensures
            Self::from_label(s) matches Some(v) ==> v.label() == s,
    {
    }

    proof fn reveal_labels()
        ensures
            "note"@.len() == 4,
            "note"@[0] == 'n',
            "tied"@.len() == 4,
            "tied"@[0] == 't',
            "rest"@.len() == 4,
            "rest"@[0] == 'r',
    {
        reveal_strlit("note");
        reveal_strlit("tied");
        reveal_strlit("rest");
    }
}

} // verus!
