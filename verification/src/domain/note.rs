//! Pitch of a step: the twelve chromatic names and the high C above them.

use crate::text::{same_text, text_then};
use vstd::prelude::*;

verus! {

/// Pitch of a step: the twelve chromatic names and the high C above them.
#[derive(Debug, Clone, Copy, PartialEq, Eq, Structural)]
pub enum Note {
    C,
    CSharp,
    D,
    DSharp,
    E,
    F,
    FSharp,
    G,
    GSharp,
    A,
    ASharp,
    B,
    Chigh,
}

impl Note {
    /// The text by which a variant is written outside the program.
    pub open spec fn label(self) -> Seq<char> {
        match self {
            Note::C => "C"@,
            Note::CSharp => "C#"@,
            Note::D => "D"@,
            Note::DSharp => "D#"@,
            Note::E => "E"@,
            Note::F => "F"@,
            Note::FSharp => "F#"@,
            Note::G => "G"@,
            Note::GSharp => "G#"@,
            Note::A => "A"@,
            Note::ASharp => "A#"@,
            Note::B => "B"@,
            Note::Chigh => "Chigh"@,
        }
    }

    /// The variant that a text writes, if it writes one.
    pub open spec fn from_label(s: Seq<char>) -> Option<Note> {
        if s == "C"@ {
            Some(Note::C)
        } else if s == "C#"@ {
            Some(Note::CSharp)
        } else if s == "D"@ {
            Some(Note::D)
        } else if s == "D#"@ {
            Some(Note::DSharp)
        } else if s == "E"@ {
            Some(Note::E)
        } else if s == "F"@ {
            Some(Note::F)
        } else if s == "F#"@ {
            Some(Note::FSharp)
        } else if s == "G"@ {
            Some(Note::G)
        } else if s == "G#"@ {
            Some(Note::GSharp)
        } else if s == "A"@ {
            Some(Note::A)
        } else if s == "A#"@ {
            Some(Note::ASharp)
        } else if s == "B"@ {
            Some(Note::B)
        } else if s == "Chigh"@ {
            Some(Note::Chigh)
        } else {
            None
        }
    }

    /// The reason given for a text that writes no variant.
    pub open spec fn rejection(s: Seq<char>) -> Seq<char> {
        s + " is not a valid note."@
    }

    /// The text by which this variant is written outside the program.
    pub fn as_ref(&self) -> (label: &'static str)
        ensures
            label@ == self.label(),
    {
        match self {
            Note::C => "C",
            Note::CSharp => "C#",
            Note::D => "D",
            Note::DSharp => "D#",
            Note::E => "E",
            Note::F => "F",
            Note::FSharp => "F#",
            Note::G => "G",
            Note::GSharp => "G#",
            Note::A => "A",
            Note::ASharp => "A#",
            Note::B => "B",
            Note::Chigh => "Chigh",
        }
    }

    /// Reads a pitch from its text; any other text is rejected.
    pub fn parse(s: &str) -> (parsed: Result<Note, String>)
        ensures
            match parsed {
                Ok(v) => Self::from_label(s@) == Some(v),
                Err(reason) => Self::from_label(s@) is None && reason@ == Self::rejection(s@),
            },
    {
        if same_text(s, "C") {
            Ok(Note::C)
        } else if same_text(s, "C#") {
            Ok(Note::CSharp)
        } else if same_text(s, "D") {
            Ok(Note::D)
        } else if same_text(s, "D#") {
            Ok(Note::DSharp)
        } else if same_text(s, "E") {
            Ok(Note::E)
        } else if same_text(s, "F") {
            Ok(Note::F)
        } else if same_text(s, "F#") {
            Ok(Note::FSharp)
        } else if same_text(s, "G") {
            Ok(Note::G)
        } else if same_text(s, "G#") {
            Ok(Note::GSharp)
        } else if same_text(s, "A") {
            Ok(Note::A)
        } else if same_text(s, "A#") {
            Ok(Note::ASharp)
        } else if same_text(s, "B") {
            Ok(Note::B)
        } else if same_text(s, "Chigh") {
            Ok(Note::Chigh)
        } else {
            Err(text_then(s, " is not a valid note."))
        }
    }

    /// Writing a variant and reading the text back gives the same variant.
    pub proof fn lemma_label_round_trip(self)
        ensures
            Self::from_label(self.label()) == Some(self),
    {
        Self::reveal_labels();
    }

    /// A text that writes a variant is that variant's own text.
    pub proof fn lemma_from_label_sound(s: Seq<char>)
        ensures
            Self::from_label(s) matches Some(v) ==> v.label() == s,
    {
    }

    proof fn reveal_labels()
        ensures
            "C"@.len() == 1,
            "C"@[0] == 'C',
            "C#"@.len() == 2,
            "C#"@[0] == 'C',
            "D"@.len() == 1,
            "D"@[0] == 'D',
            "D#"@.len() == 2,
            "D#"@[0] == 'D',
            "E"@.len() == 1,
            "E"@[0] == 'E',
            "F"@.len() == 1,
            "F"@[0] == 'F',
            "F#"@.len() == 2,
            "F#"@[0] == 'F',
            "G"@.len() == 1,
            "G"@[0] == 'G',
            "G#"@.len() == 2,
            "G#"@[0] == 'G',
            "A"@.len() == 1,
            "A"@[0] == 'A',
            "A#"@.len() == 2,
            "A#"@[0] == 'A',
            "B"@.len() == 1,
            "B"@[0] == 'B',
            "Chigh"@.len() == 5,
            "Chigh"@[0] == 'C',
    {
        reveal_strlit("C");
        reveal_strlit("C#");
        reveal_strlit("D");
        reveal_strlit("D#");
        reveal_strlit("E");
        reveal_strlit("F");
        reveal_strlit("F#");
        reveal_strlit("G");
        reveal_strlit("G#");
        reveal_strlit("A");
        reveal_strlit("A#");
        reveal_strlit("B");
        reveal_strlit("Chigh");
    }
}

} // verus!
