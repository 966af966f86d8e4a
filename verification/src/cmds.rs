//! What the commands print, and what the automatic vote decides.

pub mod autovote;
pub mod check;
pub mod list;
pub mod unvote;
pub mod vote;

use vstd::prelude::*;

verus! {

/// An outcome was to be shown that the command cannot have.
#[derive(PartialEq, Eq, Debug, Clone, Copy)]
pub struct IncorrectStatus;

impl IncorrectStatus {
    /// The message of the error.
    pub fn message(&self) -> (r: String)
        ensures
            r@ == "Incorrect vote status"@,
    {
        "Incorrect vote status".to_owned()
    }
}

} // verus!
