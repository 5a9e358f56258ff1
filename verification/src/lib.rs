//! A content-approval workflow for a single blog post.
//!
//! A post is drafted, sent to review, approved twice and then published; a
//! rejection at either review sends it back to the draft stage. The crate
//! offers the workflow in two encodings that follow the same rules:
//!
//! * [`document::Document`] keeps the stage as a value and lets every
//!   operation be called at any time; an operation that the current stage
//!   does not allow changes nothing.
//! * [`typestate`] gives each stage a type of its own, so that an operation
//!   exists only where the workflow allows it.
//!
//! [`workflow`] holds the mathematical model that both are specified against,
//! and [`laws`] the theorems proved of it.

pub mod document;
pub mod laws;
pub mod typestate;
pub mod workflow;

pub use document::Document;
pub use typestate::{DraftPost, PendingReviewPost0, PendingReviewPost1, Post};
pub use workflow::State;
