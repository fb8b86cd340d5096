//! The intake and dispatch layer of a service that proves ranges of blocks.
//!
//! The service takes requests over HTTP, queues them, and works them off one
//! at a time: it fetches the input of a request from a node, a file or an
//! object store, anchors the range to a checkpoint block, and submits the
//! work to a runtime that spreads it over workers.
//!
//! This library holds the decisions of that layer, free of I/O:
//!
//! - [`cfgld`] resolves the runtime configuration and [`psm`] the
//!   prover-state configuration from a snapshot of the environment ([`env`]);
//!   what is wrong is reported as one kind of error ([`error`]).
//! - [`fetch`] resolves the checkpoint block of a request and decides what a
//!   fetch does first and what each outcome of it means; [`block_interval`]
//!   holds the blocks and intervals it speaks of.
//! - [`dispatch`] is the loop that works the queue off, as a state machine.
//! - [`lifecycle`] is the startup of the coordinator and the shutdown of a
//!   worker, as state machines.
//! - [`cli`] holds the prover options; [`text`] the recognition of tokens
//!   and the parsing of numbers.
//!
//! A caller reads the environment, awaits the queue, the network and the
//! runtime, and asks the library after each step what to do next.

pub mod block_interval;
pub mod cfgld;
pub mod cli;
pub mod dispatch;
pub mod env;
pub mod error;
pub mod fetch;
pub mod lifecycle;
pub mod psm;
pub mod text;
