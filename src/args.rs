//! The command line, as the library sees it.
use vstd::prelude::*;

verus! {

/// What the command line asks for.
#[derive(Debug)]
pub struct Args {
    /// Show the manual page of this command straight away.
    pub command: Option<String>,
    /// Use a transparent background.
    pub transparent: bool,
}

} // verus!
