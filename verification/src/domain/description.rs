//! Free-form description of a pattern.

use crate::text::{blank, grapheme_cluster_count, grapheme_count, is_blank, text_then};
use vstd::prelude::*;

verus! {

/// Free-form description of a pattern.
#[derive(Debug)]
pub struct Description(String);

impl View for Description {
    type V = Seq<char>;

    closed spec fn view(&self) -> Seq<char> {
        self.0@
    }
}

impl Description {
    /// The texts that the parser admits: at most 500 grapheme clusters, and not blank.
    pub open spec fn admits(s: Seq<char>) -> bool {
        grapheme_cluster_count(s) <= 500 && !is_blank(s)
    }

    /// The reason given for a text that is not admitted.
    pub open spec fn rejection(s: Seq<char>) -> Seq<char> {
        s + " is not a valid pattern description."@
    }

    #[verifier::type_invariant]
    closed spec fn well_formed(self) -> bool {
        Self::admits(self.0@)
    }

    /// Decides on a text from its measured length and blankness alone.
    pub fn accepts(graphemes: usize, is_blank: bool) -> (ok: bool)
        ensures
            ok == (graphemes <= 500 && !is_blank),
    {
        let is_too_long = graphemes > 500;
        !(is_too_long || is_blank)
    }

    /// Admits `s` unless it is blank or longer than 500 grapheme clusters.
    pub fn parse(s: String) -> (parsed: Result<Description, String>)
        ensures
            parsed is Ok <==> Self::admits(s@),
            parsed matches Ok(v) ==> v@ == s@,
            parsed matches Err(reason) ==> reason@ == Self::rejection(s@),
    {
        let graphemes = grapheme_count(s.as_str());
        let is_empty = blank(s.as_str());
        if Self::accepts(graphemes, is_empty) {
            Ok(Description(s))
        } else {
            Err(text_then(s.as_str(), " is not a valid pattern description."))
        }
    }

    /// The text held, which is always one that the parser admits.
    pub fn as_ref(&self) -> (held: &str)
        ensures
            held@ == self@,
            Self::admits(held@),
    {
        proof {
            use_type_invariant(self);
        }
        self.0.as_str()
    }
}

} // verus!
