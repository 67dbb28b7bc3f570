//! The binding's view of the browser's Document Object Model.

pub mod element;
pub mod query_selector;
pub mod ready;
pub mod text;

use vstd::prelude::*;

use crate::dom::element::{spec_new_element, Element};

verus! {

/// The handle that the document-body lookup hands out: a fresh element
/// wrapper whose cached tag name is `body`. The lookup itself is a host
/// call and aborts outside the library when the document has no body.
pub fn body_element() -> (e: Element)
    ensures
        e@ == spec_new_element("body"@, Seq::<char>::empty()),
{
    Element::new("body")
}

} // verus!
