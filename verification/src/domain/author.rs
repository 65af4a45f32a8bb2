//! Name of whoever wrote a pattern.

use vstd::prelude::*;

verus! {

/// Name of whoever wrote a pattern.
#[derive(Debug)]
pub struct Author(String);

impl View for Author {
    type V = Seq<char>;

    closed spec fn view(&self) -> Seq<char> {
        self.0@
    }
}

impl Author {
    /// Admits every text: no rule restricts this field.
    pub fn parse(s: String) -> (parsed: Result<Author, String>)
        ensures
            parsed matches Ok(v) && v@ == s@,
    {
        Ok(Author(s))
    }

    /// The text held.
    pub fn as_ref(&self) -> (held: &str)
        ensures
            held@ == self@,
    {
        self.0.as_str()
    }
}

} // verus!
