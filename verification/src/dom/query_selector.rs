//! Turning a host query answer into a typed element handle.

use vstd::prelude::*;

use crate::dom::element::{spec_new_element, Element};

verus! {

/// Build the handle for the first element a host query matched, given that
/// element's tag name, or no handle when the selector matched nothing. The
/// query itself is a host call and stays outside the library.
pub fn element_from_match(tag: Option<String>) -> (r: Option<Element>)
    ensures
        match tag {
            Some(t) => r matches Some(e) && e@ == spec_new_element(t@, Seq::<char>::empty()),
            None => r is None,
        },
{
    match tag {
        Some(t) => Some(Element::new(t.as_str())),
        None => None,
    }
}

} // verus!
