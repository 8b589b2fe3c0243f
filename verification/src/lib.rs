//! Client side of a single-flight RPC protocol over one persistent socket.
//!
//! The crate holds the decisions of the protocol and none of its I/O: the
//! owner of the socket reports what the transport did, and is told in return
//! which text to send, which status to announce and which request to complete.
//!
//! - [`envelope`]: the wire format of requests and responses.
//! - [`model`]: the protocol as a state machine over mathematical values.
//! - [`service`] and [`task`]: the executable connection manager and the
//!   handle of a request, specified against the model.
//! - [`lifecycle`]: what holds of every history of the manager.
//! - [`json`]: the calls into `serde_json`, which are taken on trust.

pub mod envelope;
pub mod json;
pub mod lifecycle;
pub mod model;
pub mod service;
pub mod task;

pub use envelope::{Input, Output, ProtoResult};
pub use model::{Link, ProtoStatus, Stage};
pub use service::{Completion, Dispatch, Misuse, ProtoService};
pub use task::ProtoTask;
