//! Where the bytes to count come from.

use vstd::prelude::*;

verus! {

/// A source of input: a file named by its path, or the standard input.
pub enum WCInput {
    File(String),
    StdIn(),
}

impl WCInput {
    /// The name under which the input is reported: the path of a file, none
    /// for the standard input.
    pub open spec fn name(self) -> Option<Seq<char>> {
        match self {
            WCInput::File(p) => Some(p@),
            WCInput::StdIn() => None,
        }
    }

    /// The path of a file input; `None` for the standard input.
    pub fn path(&self) -> (r: Option<String>)
        ensures
            r == match *self {
                WCInput::File(p) => Some(p),
                WCInput::StdIn() => None,
            },
    {
        match self {
            WCInput::File(s) => Some(s.clone()),
            WCInput::StdIn() => None,
        }
    }
}

} // verus!
