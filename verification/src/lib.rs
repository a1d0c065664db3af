//! Template construction and block arrangement for a document-layout language.
//!
//! Directives record layout intent as a replayable log of operations; replaying
//! the log against an initial state yields the node descriptions that a
//! measurement engine consumes.

pub mod geom;
pub mod state;
pub mod node;

pub mod template;
pub mod arrange;
pub mod args;
pub mod directives;
pub mod laws;
