//! Drafts a version-control commit message from a staged change set by
//! delegating text generation to a remote service, then negotiates the
//! result with an operator: accept, reject, edit, or redo with the
//! rejected candidate recorded as a negative exemplar.
//!
//! The verified core is the message-negotiation engine: prompt assembly,
//! response classification, the oversize retry protocol, and the approval
//! loop's state transitions. Network, subprocess and terminal work stays
//! outside, handing plain values in and out.

pub mod approval;
pub mod history;
pub mod outcome;
pub mod prompt;
pub mod request;
pub mod response;
pub mod retry;
pub mod text;
