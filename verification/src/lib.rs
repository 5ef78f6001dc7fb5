//! Interaction core of a terminal wizard for staging files, composing a
//! conventional commit message, and creating or searching branches.
//!
//! The library owns the pure, verified logic: a line-text editor, an
//! incremental filtered list, a scrolling viewport, a branch matcher, and
//! the wizard state machine over them. Terminal I/O, rendering and the
//! version-control calls live outside, in the binary that drives the loop.

use vstd::prelude::*;

pub mod branch;
pub mod config;
pub mod diff;
pub mod files;
pub mod filter;
pub mod key_handler;
pub mod staging;
pub mod state;
pub mod text;
pub mod text_field;
pub mod view;
pub mod viewport;

verus! {

/// The one recoverable error of the interaction core: confirming a filtered
/// list or a match list that has no elements. It is never surfaced to the
/// user; callers treat it as a no-op.
#[derive(Clone, Copy, Debug, PartialEq, Eq, Structural)]
pub enum WizardError {
    SelectionEmpty,
}

/// Joins a commit prefix and a message with a single separating space.
pub fn build_commit_message(prefix: &Vec<char>, message: &Vec<char>) -> (r: Vec<char>)
    ensures
        r@ == prefix@ + seq![' '] + message@,
{
    let mut r = crate::text::clone_chars(prefix);
    r.push(' ');
    crate::text::push_chars(&mut r, message);
    proof {
        assert(r@ =~= prefix@ + seq![' '] + message@);
    }
    r
}

} // verus!
