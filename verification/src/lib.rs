//! A verified core for a theme manager: parsing theme manifests and colour
//! palettes, rendering per-application configuration files from a palette,
//! and planning the writes and reload actions of one theme application.
//!
//! All file reads and writes, process spawning and terminal output live in the
//! unverified front end; this crate works on plain values and states exactly
//! what each step produces.

pub mod apply;
pub mod colors;
pub mod model;
pub mod parser;
pub mod render;
pub mod text;
pub mod writer;

use vstd::prelude::*;

verus! {

} // verus!
