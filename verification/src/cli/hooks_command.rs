//! `uveddi hooks`: the hook types that can be tested from the command line.

use vstd::prelude::*;
use crate::hooks::HookType;

verus! {

/// A hook type named on the command line.
#[derive(Debug, Clone, Copy, PartialEq, Eq, Structural)]
pub enum TestHookType {
    PreCommit,
    PrePush,
    CommitMsg,
}

/// The hook a command-line hook type stands for.
pub open spec fn hook_of(t: TestHookType) -> HookType {
    match t {
        TestHookType::PreCommit => HookType::PreCommit,
        TestHookType::PrePush => HookType::PrePush,
        TestHookType::CommitMsg => HookType::CommitMsg,
    }
}

impl From<TestHookType> for HookType {
    fn from(test_type: TestHookType) -> (h: HookType) {
        match test_type {
            TestHookType::PreCommit => HookType::PreCommit,
            TestHookType::PrePush => HookType::PrePush,
            TestHookType::CommitMsg => HookType::CommitMsg,
        }
    }
}

impl vstd::std_specs::convert::FromSpecImpl<TestHookType> for HookType {
    open spec fn obeys_from_spec() -> bool {
        true
    }

    open spec fn from_spec(v: TestHookType) -> HookType {
        hook_of(v)
    }
}

} // verus!
