//! Sharing one value between many owners inside a single thread.
//!
//! A `Tag` can be attached to any number of `Item`s through `Rc`: cloning
//! the handle shares the tag, and the last owner to go frees it.

use vstd::prelude::*;
use std::rc::Rc;

verus! {

/// A label that many items may share.
pub struct Tag {
    pub name: String,
}

impl Tag {
    /// A tag carrying this name.
    pub fn new(name: &str) -> (r: Self)
        ensures
            r.name@ == name@,
    {
        Tag { name: name.to_string() }
    }
}

/// A named item holding a shared reference to its tag.
pub struct Item {
    pub name: String,
    pub tag: Rc<Tag>,
}

impl Item {
    /// An item carrying this name and sharing the given tag.
    pub fn new(name: &str, tag: Rc<Tag>) -> (r: Self)
        ensures
            r.name@ == name@,
            r.tag == tag,
    {
        Item { name: name.to_string(), tag }
    }
}

} // verus!
