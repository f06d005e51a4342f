//! The text form in which a payload is handed in from outside.

use vstd::prelude::*;
use vstd::std_specs::cmp::PartialEqSpecImpl;

verus! {

/// A payload as a caller writes it: one string, the body.
///
/// Its view is the body's characters.
#[derive(Debug, Eq, PartialOrd, Ord)]
pub struct BlockArgs {
    body: String,
}

impl View for BlockArgs {
    type V = Seq<char>;

    closed spec fn view(&self) -> Seq<char> {
        self.body@
    }
}

impl PartialEq for BlockArgs {
    fn eq(&self, other: &BlockArgs) -> (r: bool) {
        self.body == other.body
    }
}

impl PartialEqSpecImpl for BlockArgs {
    open spec fn obeys_eq_spec() -> bool {
        true
    }

    /// Two values are equal when their bodies are.
    open spec fn eq_spec(&self, other: &BlockArgs) -> bool {
        self@ == other@
    }
}

impl BlockArgs {
    /// The value with the body `body`.
    pub fn new(body: String) -> (args: BlockArgs)
        ensures
            args@ == body@,
    {
        BlockArgs { body }
    }

    /// The body.
    pub fn body(&self) -> (body: &str)
        ensures
            body@ == self@,
    {
        self.body.as_str()
    }

    /// Gives up the value for its body.
    pub fn into_body(self) -> (body: String)
        ensures
            body@ == self@,
    {
        self.body
    }
}

} // verus!
