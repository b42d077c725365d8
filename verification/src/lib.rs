//! Decision logic of an on-demand process-launching service on a session bus:
//! the byte relay for a call's standard streams, the mapping from what the
//! process runner observed to a reply, the dispatcher's bookkeeping with its
//! idle shutdown, and the client's choices.

pub mod relay;
pub mod memory;
pub mod outcome;
pub mod dispatch;
pub mod call;
pub mod client;

pub use relay::run_stream_pipe;
