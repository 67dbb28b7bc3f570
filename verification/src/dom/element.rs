//! Element handles: the state the binding caches on its own side of the host
//! boundary, and the operations the binding exposes on it.

use vstd::prelude::*;

verus! {

/// An element handle as the contracts see it: the cached tag name, the
/// initial text, the attributes written through the handle, the children
/// appended through it, and the event names it subscribed to.
#[verifier::ext_equal]
pub struct ElementModel {
    pub tag: Seq<char>,
    pub text: Seq<char>,
    pub attrs: Map<Seq<char>, Seq<char>>,
    pub children: Seq<Element>,
    pub listeners: Seq<Seq<char>>,
}

/// An element handle. Mutations through it also reach the host document;
/// the handle keeps the typed record of them that the contracts speak of.
pub struct Element {
    tag: String,
    text: String,
    attrs: Vec<(String, String)>,
    children: Vec<Element>,
    listeners: Vec<String>,
}

/// The attribute writes in `s`, oldest first, folded into a map: a later
/// write to a name shadows an earlier one.
pub open spec fn attrs_map(s: Seq<(String, String)>) -> Map<Seq<char>, Seq<char>>
    decreases s.len(),
{
    if s.len() == 0 {
        Map::empty()
    } else {
        attrs_map(s.drop_last()).insert(s.last().0@, s.last().1@)
    }
}

impl View for Element {
    type V = ElementModel;

    closed spec fn view(&self) -> ElementModel {
        ElementModel {
            tag: self.tag@,
            text: self.text@,
            attrs: attrs_map(self.attrs@),
            children: self.children@,
            listeners: self.listeners.deep_view(),
        }
    }
}

/// The model of a freshly constructed element: the given tag and text,
/// no attributes, no children, no subscriptions.
pub open spec fn spec_new_element(tag: Seq<char>, text: Seq<char>) -> ElementModel {
    ElementModel {
        tag: tag,
        text: text,
        attrs: Map::empty(),
        children: Seq::empty(),
        listeners: Seq::empty(),
    }
}

/// What writing an attribute does to the model: the named entry is set,
/// everything else is untouched.
pub open spec fn spec_set_attribute(
    m: ElementModel,
    name: Seq<char>,
    value: Seq<char>,
) -> ElementModel {
    ElementModel { attrs: m.attrs.insert(name, value), ..m }
}

/// What reading an attribute yields: the stored value, or nothing when the
/// name was never set.
pub open spec fn spec_attribute(m: ElementModel, name: Seq<char>) -> Option<Seq<char>> {
    if m.attrs.contains_key(name) {
        Some(m.attrs[name])
    } else {
        None
    }
}

/// What appending a child does to the model.
pub open spec fn spec_append(m: ElementModel, child: Element) -> ElementModel {
    ElementModel { children: m.children.push(child), ..m }
}

/// What subscribing to an event does to the model.
pub open spec fn spec_subscribe(m: ElementModel, event: Seq<char>) -> ElementModel {
    ElementModel { listeners: m.listeners.push(event), ..m }
}

/// Reading an attribute right after setting it yields the value just set,
/// whatever the element held before.
pub proof fn lemma_attribute_round_trip(m: ElementModel, name: Seq<char>, value: Seq<char>)
    ensures
        spec_attribute(spec_set_attribute(m, name, value), name) == Some(value),
{
}

/// A write entry whose name no later entry shadows decides the folded map
/// at that name.
proof fn lemma_attrs_map_found(s: Seq<(String, String)>, i: int)
    requires
        0 <= i < s.len(),
        forall|j: int| i < j < s.len() ==> s[j].0@ != s[i].0@,
    ensures
        attrs_map(s).contains_key(s[i].0@),
        attrs_map(s)[s[i].0@] == s[i].1@,
    decreases s.len(),
{
    if i < s.len() - 1 {
        let t = s.drop_last();
        assert(forall|j: int| i < j < t.len() ==> t[j].0@ != t[i].0@);
        lemma_attrs_map_found(t, i);
    }
}

/// A name that no write entry mentions is absent from the folded map.
proof fn lemma_attrs_map_absent(s: Seq<(String, String)>, k: Seq<char>)
    requires
        forall|j: int| 0 <= j < s.len() ==> s[j].0@ != k,
    ensures
        !attrs_map(s).contains_key(k),
    decreases s.len(),
{
    if s.len() > 0 {
        lemma_attrs_map_absent(s.drop_last(), k);
    }
}

impl Element {
    /// Construct a handle for a new element with the given tag name.
    pub fn new(tag: &str) -> (e: Element)
        ensures
            e@ == spec_new_element(tag@, Seq::<char>::empty()),
    {
        proof {
            reveal_strlit("");
            assert(""@ =~= Seq::<char>::empty());
        }
        Element::with_text(tag, "")
    }

    /// Construct a handle for a new element with the given tag name and
    /// initial text content.
    pub fn with_text(tag: &str, text: &str) -> (e: Element)
        ensures
            e@ == spec_new_element(tag@, text@),
    {
        let e = Element {
            tag: tag.to_owned(),
            text: text.to_owned(),
            attrs: Vec::new(),
            children: Vec::new(),
            listeners: Vec::new(),
        };
        proof {
            assert(e@ =~~= spec_new_element(tag@, text@));
        }
        e
    }

    /// The cached tag name.
    pub fn tag(&self) -> (t: &String)
        ensures
            t@ == self@.tag,
    {
        &self.tag
    }

    /// The initial text content the handle was constructed with.
    pub fn text(&self) -> (t: &String)
        ensures
            t@ == self@.text,
    {
        &self.text
    }

    /// Set an attribute. A second write to the same name replaces the
    /// first; the host document is updated alongside.
    pub fn set_attribute(&mut self, name: &str, value: &str)
        ensures
            final(self)@ == spec_set_attribute(old(self)@, name@, value@),
    {
        self.attrs.push((name.to_owned(), value.to_owned()));
        proof {
            assert(self.attrs@.drop_last() =~= old(self).attrs@);
            assert(self@ =~~= spec_set_attribute(old(self)@, name@, value@));
        }
    }

    /// Read an attribute back: the most recent value written under the
    /// name, or nothing when the name was never set.
    pub fn attribute(&self, name: &str) -> (r: Option<String>)
        ensures
            r.deep_view() == spec_attribute(self@, name@),
    {
        let name_owned: String = name.to_owned();
        let mut i: usize = self.attrs.len();
        while i > 0
            invariant
                i <= self.attrs@.len(),
                name_owned@ == name@,
                forall|j: int| i <= j < self.attrs@.len() ==> self.attrs@[j].0@ != name@,
            decreases i,
        {
            i = i - 1;
            if self.attrs[i].0 == name_owned {
                proof {
                    lemma_attrs_map_found(self.attrs@, i as int);
                }
                return Some(self.attrs[i].1.clone());
            }
        }
        proof {
            lemma_attrs_map_absent(self.attrs@, name@);
        }
        None
    }

    /// Append a child element. The handle takes ownership of the child,
    /// as the host document does of the underlying node.
    pub fn append(&mut self, child: Element)
        ensures
            final(self)@ == spec_append(old(self)@, child),
    {
        self.children.push(child);
        proof {
            assert(self@ =~~= spec_append(old(self)@, child));
        }
    }

    /// How many children have been appended through this handle.
    pub fn child_count(&self) -> (n: usize)
        ensures
            n == self@.children.len(),
    {
        self.children.len()
    }

    /// The `i`-th child appended through this handle, oldest first.
    pub fn child(&self, i: usize) -> (c: &Element)
        requires
            i < self@.children.len(),
        ensures
            *c == self@.children[i as int],
    {
        &self.children[i]
    }

    /// Subscribe to an event by name; the callback itself is installed by
    /// the host layer.
    pub fn on(&mut self, event: &str)
        ensures
            final(self)@ == spec_subscribe(old(self)@, event@),
    {
        self.listeners.push(event.to_owned());
        proof {
            assert(self@ =~~= spec_subscribe(old(self)@, event@));
        }
    }

    /// How many event subscriptions have been made through this handle.
    pub fn listener_count(&self) -> (n: usize)
        ensures
            n == self@.listeners.len(),
    {
        self.listeners.len()
    }
}

} // verus!
