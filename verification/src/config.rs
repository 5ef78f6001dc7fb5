//! The immutable configuration snapshot handed to the wizard at
//! construction: the candidate prefix lists, the optional story-number
//! prefix, the auto-push default and the optional default commit prefix.
//!
//! Loading and saving the on-disk form is the caller's business; the core
//! only consumes the record.

use vstd::prelude::*;

verus! {

/// The configuration record consumed once when the wizard is built.
pub struct Config {
    pub commit_prefixes: Vec<Vec<char>>,
    pub branch_prefixes: Vec<Vec<char>>,
    pub story_prefix: Option<Vec<char>>,
    pub auto_push: Option<bool>,
    pub default_commit_prefix: Option<Vec<char>>,
}

} // verus!
