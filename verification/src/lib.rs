//! A pull-mode, URI-addressable source element.
//!
//! The crate models a composite source element that wraps a byte-range
//! child reader, republishes the child's output through a delegating
//! output port, drives the standard four-state lifecycle
//! (`Null`, `Ready`, `Paused`, `Playing`), and implements a
//! `file`-scheme URI handler whose conversions go through the `url`
//! crate.

pub mod element;
pub mod errors;
pub mod laws;
pub mod meta;
pub mod port;
pub mod reader;
pub mod states;
pub mod uri;
