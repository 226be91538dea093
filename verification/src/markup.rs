//! The markup a component renders, as a plain tree. A host maps each node
//! onto its own element type; the contracts of the component functions state
//! the exact tree, so nothing about the rendered shape is left to the host.

use vstd::prelude::*;

verus! {

/// One attribute of an element: its name and its value.
#[derive(PartialEq, Debug)]
pub struct Attr {
    pub name: String,
    pub value: String,
}

/// A rendered node: an element with attributes and children, a run of text,
/// or nothing at all.
#[derive(PartialEq, Debug)]
pub enum Node {
    Element { tag: String, attrs: Vec<Attr>, children: Vec<Node> },
    Text(String),
    Empty,
}

/// Holds when `a` is the attribute `name` with the value `value`.
pub open spec fn attr_is(a: Attr, name: Seq<char>, value: Seq<char>) -> bool {
    &&& a.name@ == name
    &&& a.value@ == value
}

/// Builds one attribute.
pub fn attr(name: &'static str, value: String) -> (a: Attr)
    ensures
        a.name@ == name@,
        a.value == value,
{
    Attr { name: name.to_owned(), value }
}

} // verus!
