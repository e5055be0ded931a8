//! Native-side supervisor and bridge of a desktop application whose domain
//! logic runs in a separate backend process.
//!
//! The crate holds the decisions: where the Java runtime is looked for, how
//! the backend is launched and torn down, how the one RPC client is shared,
//! and how calls, failures and streamed updates are handed to the UI. Every
//! operation that touches the outside world (processes, sockets, the event
//! bus) is performed by the embedding application, which reports each outcome
//! back as a plain value and receives the next thing to do.

pub mod channel;
pub mod error;
pub mod forwarder;
pub mod launcher;
pub mod lifecycle;
pub mod locator;
pub mod state;
pub mod streamer;
pub mod supervisor;
pub mod text;
