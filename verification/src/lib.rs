//! Building blocks for shared-ownership and worker-pool concurrency.
//!
//! The heart of the crate is [`pool`]: a fixed-size worker pool with an
//! ordered, closeable job queue and a blocking shutdown protocol, modelled
//! as a verified state machine. Around it stand small verified containers
//! that are meant to be shared between threads once wrapped in the usual
//! synchronisation primitives: a log, a key-value cache, a tree, a list,
//! and a publish-subscribe bus.

pub mod arc_share;
pub mod cache;
pub mod event_bus;
pub mod linked_list;
pub mod log;
pub mod pool;
pub mod rc_share;
pub mod rc_tree;
