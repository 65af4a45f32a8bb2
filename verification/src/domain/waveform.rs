//! Oscillator waveform of a pattern.

use crate::text::{same_text, text_then};
use vstd::prelude::*;

verus! {

/// Oscillator waveform of a pattern.
#[derive(Debug, Clone, Copy, PartialEq, Eq, Structural)]
pub enum Waveform {
    Square,
    Sawtooth,
}

impl Waveform {
    /// The text by which a variant is written outside the program.
    pub open spec fn label(self) -> Seq<char> {
        match self {
            Waveform::Square => "square"@,
            Waveform::Sawtooth => "sawtooth"@,
        }
    }

    /// The variant that a text writes, if it writes one.
    pub open spec fn from_label(s: Seq<char>) -> Option<Waveform> {
        if s == "square"@ {
            Some(Waveform::Square)
        } else if s == "sawtooth"@ {
            Some(Waveform::Sawtooth)
        } else {
            None
        }
    }

    /// The reason given for a text that writes no variant.
    pub open spec fn rejection(s: Seq<char>) -> Seq<char> {
        s + " is not a valid waveform. Can only be one of 'square', 'sawtooth'"@
    }

    /// The text by which this variant is written outside the program.
    pub fn as_ref(&self) -> (label: &'static str)
        ensures
            label@ == self.label(),
    {
        match self {
            Waveform::Square => "square",
            Waveform::Sawtooth => "sawtooth",
        }
    }

    /// Reads a waveform from its text; any other text is rejected.
    pub fn parse(s: &str) -> (parsed: Result<Waveform, String>)
        ensures
            match parsed {
                Ok(v) => Self::from_label(s@) == Some(v),
                Err(reason) => Self::from_label(s@) is None && reason@ == Self::rejection(s@),
            },
    {
        if same_text(s, "square") {
            Ok(Waveform::Square)
        } else if same_text(s, "sawtooth") {
            Ok(Waveform::Sawtooth)
        } else {
            Err(text_then(s, " is not a valid waveform. Can only be one of 'square', 'sawtooth'"))
        }
    }

    /// Writing a variant and reading the text back gives the same variant.
    pub proof fn lemma_label_round_trip(self)
        ensures
            Self::from_label(self.label()) == Some(self),
    {
        Self::reveal_labels();
    }

    /// A text that writes a variant is that variant's own text.
    pub proof fn lemma_from_label_sound(s: Seq<char>)
        ensures
            Self::from_label(s) matches Some(v) ==> v.label() == s,
    {
    }

    proof fn reveal_labels()
        ensures
            "square"@.len() == 6,
            "square"@[0] == 's',
            "sawtooth"@.len() == 8,
            "sawtooth"@[0] == 's',
    {
        reveal_strlit("square");
        reveal_strlit("sawtooth");
    }
}

} // verus!
