//! Sharing one value between many owners across threads.
//!
//! The same shape as the single-threaded sharing module, but the handle is
//! `Arc`, so clones of it may move to other threads.

use vstd::prelude::*;
use std::sync::Arc;

verus! {

/// A label that many items, on any thread, may share.
pub struct Tag {
    pub name: String,
}

impl Tag {
    /// A tag carrying this name.
    pub fn new(name: &str) -> (r: Self)
        ensures
            r.name@ == name@,
    {
        Tag { name: name.to_string() }
    }
}

/// A named item holding a thread-safe shared reference to its tag.
pub struct Item {
    pub name: String,
    pub tag: Arc<Tag>,
}

impl Item {
    /// An item carrying this name and sharing the given tag.
    pub fn new(name: &str, tag: Arc<Tag>) -> (r: Self)
        ensures
            r.name@ == name@,
            r.tag == tag,
    {
        Item { name: name.to_string(), tag }
    }
}

} // verus!
