//! Decides the HTTP reply of a sync-trigger endpoint from the result of one
//! run of the synchronization tool (`git pull`).
//!
//! The endpoint itself, and the launch of the tool, live outside this library:
//! they hand in the exit status and the captured bytes, and get back a
//! [`Reply`].
pub mod text;
pub mod outcome;

pub use outcome::{
    classify, compose_reply, handle_output, reply_for, Outcome, Reply, STATUS_FAILURE,
    STATUS_NO_OP, STATUS_SUCCESS,
};
pub use text::{contains_marker, NO_CHANGE_MARKER};
