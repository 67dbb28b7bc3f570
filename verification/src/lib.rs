//! A minimal browser-DOM binding layer.
//!
//! The crate models the state that a DOM binding keeps on its own side of the
//! host boundary: element and text handles with their cached tag names, text,
//! attributes and children, the conversion of a host query answer into a typed
//! handle, and the one-shot wait for the document to become ready. Every
//! contract speaks of that state; the host calls themselves live outside the
//! library.

pub mod dom;
