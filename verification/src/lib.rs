//! Structured terminal rendering and remote-progress aggregation for a git
//! command-line client.
//!
//! The crate is organised around three pieces:
//! - a declarative [`node::Node`] tree describing what to show, independent of
//!   any rendering backend;
//! - the [`render`] module, which formats a tree into terminal text, either
//!   written directly to standard output or buffered for a pager;
//! - the [`progress`] and [`remote`] modules, which fold the interleaved
//!   progress signals of a remote operation into one coherent widget sample
//!   and capture the remaining sideband bytes verbatim.

pub mod classify;
pub mod fmt;
pub mod log;
pub mod node;
pub mod objects;
pub mod progress;
pub mod render;
pub mod remote;
pub mod sideband;
pub mod status;
pub mod widget;
