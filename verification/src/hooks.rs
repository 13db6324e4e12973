//! Git hooks the analyser can install.

use vstd::prelude::*;

verus! {

/// A Git hook the analyser runs in.
#[derive(Debug, Clone, Copy, PartialEq, Eq, Structural)]
pub enum HookType {
    PreCommit,
    PrePush,
    CommitMsg,
}

} // verus!
