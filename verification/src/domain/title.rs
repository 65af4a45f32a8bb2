//! Title of the track a pattern comes from.

use vstd::prelude::*;

verus! {

/// Title of the track a pattern comes from.
#[derive(Debug)]
pub struct Title(String);

impl View for Title {
    type V = Seq<char>;

    closed spec fn view(&self) -> Seq<char> {
        self.0@
    }
}

impl Title {
    /// Admits every text: no rule restricts this field.
    pub fn parse(s: String) -> (parsed: Result<Title, String>)
        ensures
            parsed matches Ok(v) && v@ == s@,
    {
        Ok(Title(s))
    }

    /// The text held.
    pub fn as_ref(&self) -> (held: &str)
        ensures
            held@ == self@,
    {
        self.0.as_str()
    }
}

} // verus!
