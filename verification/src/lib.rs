//! Use case coverage: the specifications of `.ucc` files, their linting, the
//! search for automated tests that reference their artifacts, the figures of
//! the coverage report, and the decisions of the `ucc` command line.
use vstd::prelude::*;

pub mod text;
pub mod domain;
pub mod paths;
pub mod matcher;
pub mod coverage;
pub mod ports;
pub mod lint;
pub mod usecases;
pub mod report;
pub mod infrastructure;
pub mod cli;
pub mod templates;
pub mod laws;

verus! {

} // verus!
