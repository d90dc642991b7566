//! Bootstrap orchestration for a local cluster of peer-to-peer nodes.
//!
//! The crate decides what has to happen, and in which order, to bring a
//! cluster up on one machine: which node is the genesis node, how every
//! other node is configured to find it, where each node keeps its data, when
//! each node may be started, and how an external launch tool is invoked.
//! Performing the steps (threads, files, sleeping, processes) is left to the
//! caller, which reports back what happened.
//!
//! - [`config`] and [`slot`]: what each node of a cluster is configured
//!   with.
//! - [`sequencer`] and [`cluster`]: the order in which the nodes are
//!   started, and the handles of those that were.
//! - [`channel`]: the command channel of a node.
//! - [`supervisor`] and [`multiplexer`]: what the thread of one node does,
//!   and from which of its sources it takes the next event.
//! - [`launch`] and [`launcher`]: bringing a network up through the
//!   external launch tool.
//! - [`path`] and [`text`]: paths and numerals as text.

pub mod channel;
pub mod cluster;
pub mod config;
pub mod launch;
pub mod launcher;
pub mod multiplexer;
pub mod path;
pub mod sequencer;
pub mod slot;
pub mod supervisor;
pub mod text;
