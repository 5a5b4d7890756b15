//! A singly-owned linked list that can be read in both directions.
//!
//! Each node owns the next one, the list owns the head, and the list's
//! abstract value is the sequence of element values from head to tail.
//! Reading backwards walks the same chain and reverses it, so no node needs
//! a back-reference.

use vstd::prelude::*;
use vstd::pervasive::cloned;

verus! {

/// One link of the chain: a value and ownership of the rest.
pub struct Node<T> {
    pub value: T,
    pub next: Option<Box<Node<T>>>,
}

/// The values of the chain starting at `o`, front first.
pub open spec fn chain_values<T>(o: Option<Box<Node<T>>>) -> Seq<T>
    decreases o,
{
    match o {
        None => Seq::empty(),
        Some(n) => seq![n.value] + chain_values(n.next),
    }
}

impl<T> Node<T> {
    /// A node holding `value`, linked to nothing yet.
    pub fn new(value: T) -> (r: Self)
        ensures
            r == (Node { value, next: None::<Box<Node<T>>> }),
    {
        Node { value, next: None }
    }
}

/// An ordered list of values; pushes go to the back.
pub struct LinkedList<T> {
    head: Option<Box<Node<T>>>,
}

impl<T> View for LinkedList<T> {
    type V = Seq<T>;

    closed spec fn view(&self) -> Seq<T> {
        chain_values(self.head)
    }
}

/// Rebuilds the chain `n` with `value` appended at its very end.
fn append_at_end<T>(n: Box<Node<T>>, value: T) -> (r: Box<Node<T>>)
    ensures
        chain_values(Some(r)) == chain_values(Some(n)).push(value),
    decreases *n,
{
    let mut node = n;
    let rest = node.next.take();
    match rest {
        Some(tail) => {
            let new_tail = append_at_end(tail, value);
            node.next = Some(new_tail);
            proof {
                assert(chain_values(Some(node)) =~= chain_values(Some(n)).push(value));
            }
            node
        },
        None => {
            node.next = Some(Box::new(Node { value, next: None }));
            proof {
                assert(chain_values(None::<Box<Node<T>>>) =~= Seq::<T>::empty());
                assert(chain_values(node.next) =~= seq![value]);
                assert(chain_values(Some(node)) =~= chain_values(Some(n)).push(value));
            }
            node
        },
    }
}

/// Collects clones of the chain's values, front first.
fn collect_forward<T: Clone>(o: &Option<Box<Node<T>>>) -> (r: Vec<T>)
    ensures
        r@.len() == chain_values(*o).len(),
        forall|i: int| 0 <= i < r@.len() ==> cloned(chain_values(*o)[i], #[trigger] r@[i]),
    decreases *o,
{
    match o {
        None => Vec::new(),
        Some(n) => {
            let mut out: Vec<T> = Vec::new();
            out.push(n.value.clone());
            let mut rest = collect_forward(&n.next);
            out.append(&mut rest);
            proof {
                assert(chain_values(*o) == seq![n.value] + chain_values(n.next));
            }
            out
        },
    }
}

/// Collects clones of the chain's values, back first.
fn collect_backward<T: Clone>(o: &Option<Box<Node<T>>>) -> (r: Vec<T>)
    ensures
        r@.len() == chain_values(*o).len(),
        forall|i: int|
            0 <= i < r@.len() ==> cloned(
                chain_values(*o)[chain_values(*o).len() - 1 - i],
                #[trigger] r@[i],
            ),
    decreases *o,
{
    match o {
        None => Vec::new(),
        Some(n) => {
            let mut out = collect_backward(&n.next);
            out.push(n.value.clone());
            proof {
                assert(chain_values(*o) == seq![n.value] + chain_values(n.next));
            }
            out
        },
    }
}

impl<T> LinkedList<T> {
    /// An empty list.
    pub fn new() -> (r: Self)
        ensures
            r@ == Seq::<T>::empty(),
    {
        LinkedList { head: None }
    }

    /// Appends a value at the back; everything already stored keeps its
    /// place.
    pub fn push_back(&mut self, value: T)
        ensures
            final(self)@ == old(self)@.push(value),
    {
        let head = self.head.take();
        match head {
            Some(node) => {
                self.head = Some(append_at_end(node, value));
            },
            None => {
                self.head = Some(Box::new(Node { value, next: None }));
                proof {
                    assert(final(self)@ =~= old(self)@.push(value));
                }
            },
        }
    }

    /// Clones the values front to back.
    pub fn traverse_forward(&self) -> (r: Vec<T>) where T: Clone
        ensures
            r@.len() == self@.len(),
            forall|i: int| 0 <= i < r@.len() ==> cloned(self@[i], #[trigger] r@[i]),
    {
        collect_forward(&self.head)
    }

    /// Clones the values back to front.
    pub fn traverse_backward(&self) -> (r: Vec<T>) where T: Clone
        ensures
            r@.len() == self@.len(),
            forall|i: int|
                0 <= i < r@.len() ==> cloned(self@[self@.len() - 1 - i], #[trigger] r@[i]),
    {
        collect_backward(&self.head)
    }
}

impl<T> Default for LinkedList<T> {
    /// An empty list.
    fn default() -> (r: Self)
        ensures
            r@ == Seq::<T>::empty(),
    {
        LinkedList::new()
    }
}

} // verus!
