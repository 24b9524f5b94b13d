//! A watcher for one hosted repository: it asks for the commit at the head of
//! the default branch, and when that commit is new it fetches an archive of
//! the tree and has it unpacked.
//!
//! The crate holds the decisions. [`poll::PollLoop`] is the state machine
//! that owns the last revision delivered; [`probe`] reads a reference
//! listing; [`snapshot`] checks and decodes an archive payload; [`target`]
//! and [`agent`] build the request texts. Network, disk and clock are left
//! to the program that drives the machine.

pub mod agent;
pub mod laws;
pub mod poll;
pub mod probe;
pub mod snapshot;
pub mod target;
