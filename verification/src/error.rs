use vstd::prelude::*;

verus! {

/// The error of a write-once cell that is written a second time.
#[derive(Debug, Clone, Copy, PartialEq, Eq, Structural)]
pub enum InitError {
    AlreadyExists,
}

} // verus!
