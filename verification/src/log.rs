//! An append-only collector of log messages.
//!
//! The struct itself is plain sequential data; thread safety comes from
//! wrapping a value of it in `Arc<Mutex<..>>` at the call site, which keeps
//! every contract here about one thing only: the sequence of entries.

use vstd::prelude::*;

verus! {

/// An ordered collection of log entries, oldest first.
pub struct Log {
    entries: Vec<String>,
}

impl View for Log {
    type V = Seq<String>;

    closed spec fn view(&self) -> Seq<String> {
        self.entries@
    }
}

impl Log {
    /// An empty log.
    pub fn new() -> (r: Self)
        ensures
            r@ == Seq::<String>::empty(),
    {
        Log { entries: Vec::new() }
    }

    /// Adds one message at the end; nothing already logged moves.
    pub fn append(&mut self, message: String)
        ensures
            final(self)@ == old(self)@.push(message),
    {
        self.entries.push(message)
    }

    /// All entries so far, in insertion order.
    pub fn getall(&self) -> (r: &[String])
        ensures
            r@ == self@,
    {
        self.entries.as_slice()
    }

    /// How many entries have been logged.
    pub fn len(&self) -> (r: usize)
        ensures
            r == self@.len(),
    {
        self.entries.len()
    }

    /// Whether nothing has been logged yet.
    pub fn is_empty(&self) -> (r: bool)
        ensures
            r == (self@.len() == 0),
    {
        self.entries.is_empty()
    }
}

impl Default for Log {
    /// An empty log.
    fn default() -> (r: Self)
        ensures
            r@ == Seq::<String>::empty(),
    {
        Log::new()
    }
}

/// The number of entries a shared log holds; the caller presents the log
/// with whatever lock it keeps it under already acquired.
pub fn log_count(log: &Log) -> (r: usize)
    ensures
        r == log@.len(),
{
    log.len()
}

} // verus!
