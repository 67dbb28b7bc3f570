//! Text-node handles.

use vstd::prelude::*;

verus! {

/// A text-node handle: the binding caches the content the node was
/// created with.
pub struct Text {
    content: String,
}

impl View for Text {
    type V = Seq<char>;

    closed spec fn view(&self) -> Seq<char> {
        self.content@
    }
}

impl Text {
    /// Construct a handle for a new text node with the given content.
    pub fn new(content: &str) -> (t: Text)
        ensures
            t@ == content@,
    {
        Text { content: content.to_owned() }
    }

    /// The cached content of the text node.
    pub fn content(&self) -> (c: &String)
        ensures
            c@ == self@,
    {
        &self.content
    }
}

} // verus!
