//! A multi-endpoint TCP forwarder, written as a set of deterministic state
//! machines.
//!
//! Every decision the forwarder takes lives here: how one direction of a
//! connection copies bytes and when it stops, how the two directions of a
//! connection cancel each other, how a listener reacts to what `accept`
//! hands it, and when the whole set of listeners is finished. Sockets,
//! timers and tasks stay with the caller, which performs the action a
//! machine asks for and feeds the outcome back in.

pub mod config;
pub mod event;
pub mod forwarder;
pub mod pair;
pub mod relay;
pub mod script;
pub mod supervisor;
