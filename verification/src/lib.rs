//! Sans-I/O bindings for the capability tables ("suites") that a plug-in host
//! exposes to its plug-ins.
//!
//! Nothing in this crate talks to the host. Every operation is a small state
//! machine: it describes the next foreign call as a [`call::HostCall`] value,
//! is handed the host's answer as a [`call::HostReply`], and turns that answer
//! into a typed result. The caller owns the loop that performs the calls.
//! What is verified here is everything the host does not decide: which call is
//! issued with which arguments in which order, that output slots start out
//! zeroed, how a status code becomes a typed result, and that every acquired
//! table and every owned handle is given back exactly once.

pub mod error;
pub mod value;
pub mod entry;
pub mod call;
pub mod decode;
pub mod pending;
pub mod registry;
pub mod machine;
pub mod scoped;
pub mod sequence;
pub mod buffers;
pub mod handle;
pub mod pf;
pub mod mask;
pub mod drawbot;
pub mod aegp;
pub mod gpu_image_processing;
pub mod time;
