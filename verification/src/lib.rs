//! Scaffolding helper for a Flutter development workflow.
//!
//! The library plans and renders everything the `modular` command produces:
//! the pascal-case name transform, the generated page, module and export
//! aggregator sources, the ordered list of filesystem and tool steps, and
//! the guarded update of a parent aggregator file.  A thin binary shell
//! parses arguments, performs the filesystem writes and launches the
//! external tools.

pub mod error;
pub mod fsmodel;
pub mod parent;
pub mod plan;
pub mod text;

use vstd::prelude::*;

verus! {

/// Generic newtype wrapper.
pub struct W<T>(pub T);

} // verus!
