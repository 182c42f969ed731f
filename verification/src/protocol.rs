//! How the decisions of this crate and the outside world talk to each other.
//!
//! Every procedure is a value that names the one thing to be done next. Whoever runs it does that
//! thing and reports what came of it as a [`Reply`], which gives the next value.

use vstd::prelude::*;

verus! {

/// What came of the thing that a procedure asked for.
#[derive(Debug, PartialEq, Eq)]
pub enum Reply {
    /// It was done.
    Done,
    /// The question is answered with yes.
    Yes,
    /// The question is answered with no.
    No,
    /// This text was read.
    Text(String),
    /// It failed, with the error code of the operating system, if there is one, and with a
    /// description of the failure.
    Failed { code: Option<i32>, text: String },
}

} // verus!
