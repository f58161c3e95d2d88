//! Root container of a code-editor window.
//!
//! The container composes two independently owned widget subtrees that share
//! one event stream: a floating command-palette overlay with a bounded
//! preferred size, and an editor split tree that fills the whole window.
//! This crate holds the container's decision logic — event routing and
//! hit-testing, overlay/main-tree layout, and paint ordering — stated over
//! plain values (integer logical coordinates) and verified. The host toolkit
//! plumbing (widget handles, contexts, painting surfaces) lives outside the
//! library and consumes the decisions computed here.

pub mod container;
pub mod events;
pub mod geometry;
