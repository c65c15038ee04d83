//! The operating systems that the client tells apart.

use vstd::prelude::*;

verus! {

/// The operating system that the client was built for.
#[derive(Clone, Copy, Debug, PartialEq, Eq, Structural)]
pub enum TargetOs {
    MacOs,
    Windows,
    Linux,
    Other,
}

} // verus!
