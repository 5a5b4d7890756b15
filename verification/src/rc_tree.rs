//! A binary tree whose nodes are shared through reference counting.
//!
//! Children sit behind `Rc`, so a subtree can be handed out (for instance
//! by [`find_node`]) without copying it and without taking it away from the
//! tree that owns it.

use vstd::prelude::*;
use std::rc::Rc;
use vstd::std_specs::cmp::PartialEqSpec;

verus! {

/// A tree node holding a value and up to two shared children.
pub struct Node<T> {
    pub value: T,
    pub left: Option<Rc<Node<T>>>,
    pub right: Option<Rc<Node<T>>>,
}

/// How many nodes an optional subtree holds.
pub open spec fn subtree_count<T>(o: Option<Rc<Node<T>>>) -> nat
    decreases o,
{
    match o {
        None => 0,
        Some(n) => 1 + subtree_count(n.left) + subtree_count(n.right),
    }
}

/// The first node of an optional subtree, in root-left-right order, whose
/// value equals `v` under the key type's own equality.
pub open spec fn subtree_find<T: PartialEq>(o: Option<Rc<Node<T>>>, v: T) -> Option<
    Rc<Node<T>>,
>
    decreases o,
{
    match o {
        None => None,
        Some(n) => if n.value.eq_spec(&v) {
            Some(n)
        } else {
            let found_left = subtree_find(n.left, v);
            if found_left is Some {
                found_left
            } else {
                subtree_find(n.right, v)
            }
        },
    }
}

impl<T> Node<T> {
    /// A leaf: no children on either side.
    pub fn new(value: T) -> (r: Self)
        ensures
            r == (Node { value, left: None::<Rc<Node<T>>>, right: None::<Rc<Node<T>>> }),
    {
        Node { value, left: None, right: None }
    }

    /// A node with the two given subtrees.
    pub fn with_children(value: T, left: Rc<Node<T>>, right: Rc<Node<T>>) -> (r: Self)
        ensures
            r == (Node { value, left: Some(left), right: Some(right) }),
    {
        Node { value, left: Some(left), right: Some(right) }
    }

    /// A node with only a left subtree.
    pub fn with_left_child(value: T, left: Rc<Node<T>>) -> (r: Self)
        ensures
            r == (Node { value, left: Some(left), right: None::<Rc<Node<T>>> }),
    {
        Node { value, left: Some(left), right: None }
    }

    /// A node with only a right subtree.
    pub fn with_right_child(value: T, right: Rc<Node<T>>) -> (r: Self)
        ensures
            r == (Node { value, left: None::<Rc<Node<T>>>, right: Some(right) }),
    {
        Node { value, left: None, right: Some(right) }
    }
}

/// Counts the nodes of the tree rooted at `root`, the root included.
pub fn count_nodes<T>(root: &Rc<Node<T>>) -> (r: usize)
    requires
        subtree_count(Some(*root)) <= usize::MAX,
    ensures
        r == subtree_count(Some(*root)),
    decreases **root,
{
    proof {
        assert(subtree_count(Some(*root)) == 1 + subtree_count(root.left) + subtree_count(
            root.right,
        ));
    }
    let left_count = match root.left.as_ref() {
        Some(left) => {
            proof {
                assert(root.left == Some(*left));
            }
            count_nodes(left)
        },
        None => 0,
    };

    let right_count = match root.right.as_ref() {
        Some(right) => {
            proof {
                assert(root.right == Some(*right));
            }
            count_nodes(right)
        },
        None => 0,
    };

    1 + left_count + right_count
}

/// Searches the tree rooted at `root` in root-left-right order and shares
/// the first node whose value equals `value`; `None` when no node matches.
/// The promise holds for value types whose equality test agrees with their
/// mathematical equality.
pub fn find_node<T: PartialEq>(root: &Rc<Node<T>>, value: &T) -> (r: Option<Rc<Node<T>>>)
    ensures
        T::obeys_eq_spec() ==> r == subtree_find(Some(*root), *value),
    decreases **root,
{
    proof {
        assert(subtree_find(Some(*root), *value) == (if root.value.eq_spec(value) {
            Some(*root)
        } else {
            let found_left = subtree_find(root.left, *value);
            if found_left is Some {
                found_left
            } else {
                subtree_find(root.right, *value)
            }
        }));
    }
    if root.value.eq(value) {
        return Some(Rc::clone(root));
    }

    let from_left = match root.left.as_ref() {
        Some(left) => {
            proof {
                assert(root.left == Some(*left));
            }
            find_node(left, value)
        },
        None => {
            proof {
                assert(subtree_find(root.left, *value) == None::<Rc<Node<T>>>);
            }
            None
        },
    };
    if let Some(found) = from_left {
        return Some(found);
    }

    match root.right.as_ref() {
        Some(right) => {
            proof {
                assert(root.right == Some(*right));
            }
            find_node(right, value)
        },
        None => {
            proof {
                assert(subtree_find(root.right, *value) == None::<Rc<Node<T>>>);
            }
            None
        },
    }
}

} // verus!
