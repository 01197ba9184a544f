//! The status of a CloudFormation stack, and the choice of statuses to list.

use vstd::prelude::*;
use crate::text::{lowercase, same_text, to_lowercase};

verus! {

/// The status of a stack. `Other` holds a status name that has no variant of
/// its own, such as the word `all` given on the command line.
#[derive(Debug, PartialEq, Eq)]
pub enum StackStatus {
    CreateComplete,
    CreateFailed,
    CreateInProgress,
    DeleteComplete,
    DeleteFailed,
    DeleteInProgress,
    ImportComplete,
    ImportInProgress,
    ImportRollbackComplete,
    ImportRollbackFailed,
    ImportRollbackInProgress,
    ReviewInProgress,
    RollbackComplete,
    RollbackFailed,
    RollbackInProgress,
    UpdateComplete,
    UpdateCompleteCleanupInProgress,
    UpdateFailed,
    UpdateInProgress,
    UpdateRollbackComplete,
    UpdateRollbackCompleteCleanupInProgress,
    UpdateRollbackFailed,
    UpdateRollbackInProgress,
    Other(String),
}

impl StackStatus {
    /// The name of the status as CloudFormation writes it.
    pub open spec fn name(self) -> Seq<char> {
        match self {
            StackStatus::CreateComplete => "CREATE_COMPLETE"@,
            StackStatus::CreateFailed => "CREATE_FAILED"@,
            StackStatus::CreateInProgress => "CREATE_IN_PROGRESS"@,
            StackStatus::DeleteComplete => "DELETE_COMPLETE"@,
            StackStatus::DeleteFailed => "DELETE_FAILED"@,
            StackStatus::DeleteInProgress => "DELETE_IN_PROGRESS"@,
            StackStatus::ImportComplete => "IMPORT_COMPLETE"@,
            StackStatus::ImportInProgress => "IMPORT_IN_PROGRESS"@,
            StackStatus::ImportRollbackComplete => "IMPORT_ROLLBACK_COMPLETE"@,
            StackStatus::ImportRollbackFailed => "IMPORT_ROLLBACK_FAILED"@,
            StackStatus::ImportRollbackInProgress => "IMPORT_ROLLBACK_IN_PROGRESS"@,
            StackStatus::ReviewInProgress => "REVIEW_IN_PROGRESS"@,
            StackStatus::RollbackComplete => "ROLLBACK_COMPLETE"@,
            StackStatus::RollbackFailed => "ROLLBACK_FAILED"@,
            StackStatus::RollbackInProgress => "ROLLBACK_IN_PROGRESS"@,
            StackStatus::UpdateComplete => "UPDATE_COMPLETE"@,
            StackStatus::UpdateCompleteCleanupInProgress => "UPDATE_COMPLETE_CLEANUP_IN_PROGRESS"@,
            StackStatus::UpdateFailed => "UPDATE_FAILED"@,
            StackStatus::UpdateInProgress => "UPDATE_IN_PROGRESS"@,
            StackStatus::UpdateRollbackComplete => "UPDATE_ROLLBACK_COMPLETE"@,
            StackStatus::UpdateRollbackCompleteCleanupInProgress => "UPDATE_ROLLBACK_COMPLETE_CLEANUP_IN_PROGRESS"@,
            StackStatus::UpdateRollbackFailed => "UPDATE_ROLLBACK_FAILED"@,
            StackStatus::UpdateRollbackInProgress => "UPDATE_ROLLBACK_IN_PROGRESS"@,
            StackStatus::Other(name) => name@,
        }
    }

    /// Whether the status is the word `all`, in any mix of upper and lower case.
    pub open spec fn means_all(self) -> bool {
        lowercase(self.name()) == "all"@
    }

    /// The name of the status as CloudFormation writes it.
    pub fn as_str(&self) -> (name: &str)
        ensures
            name@ == self.name(),
    {
        match self {
            StackStatus::CreateComplete => "CREATE_COMPLETE",
            StackStatus::CreateFailed => "CREATE_FAILED",
            StackStatus::CreateInProgress => "CREATE_IN_PROGRESS",
            StackStatus::DeleteComplete => "DELETE_COMPLETE",
            StackStatus::DeleteFailed => "DELETE_FAILED",
            StackStatus::DeleteInProgress => "DELETE_IN_PROGRESS",
            StackStatus::ImportComplete => "IMPORT_COMPLETE",
            StackStatus::ImportInProgress => "IMPORT_IN_PROGRESS",
            StackStatus::ImportRollbackComplete => "IMPORT_ROLLBACK_COMPLETE",
            StackStatus::ImportRollbackFailed => "IMPORT_ROLLBACK_FAILED",
            StackStatus::ImportRollbackInProgress => "IMPORT_ROLLBACK_IN_PROGRESS",
            StackStatus::ReviewInProgress => "REVIEW_IN_PROGRESS",
            StackStatus::RollbackComplete => "ROLLBACK_COMPLETE",
            StackStatus::RollbackFailed => "ROLLBACK_FAILED",
            StackStatus::RollbackInProgress => "ROLLBACK_IN_PROGRESS",
            StackStatus::UpdateComplete => "UPDATE_COMPLETE",
            StackStatus::UpdateCompleteCleanupInProgress => "UPDATE_COMPLETE_CLEANUP_IN_PROGRESS",
            StackStatus::UpdateFailed => "UPDATE_FAILED",
            StackStatus::UpdateInProgress => "UPDATE_IN_PROGRESS",
            StackStatus::UpdateRollbackComplete => "UPDATE_ROLLBACK_COMPLETE",
            StackStatus::UpdateRollbackCompleteCleanupInProgress => "UPDATE_ROLLBACK_COMPLETE_CLEANUP_IN_PROGRESS",
            StackStatus::UpdateRollbackFailed => "UPDATE_ROLLBACK_FAILED",
            StackStatus::UpdateRollbackInProgress => "UPDATE_ROLLBACK_IN_PROGRESS",
            StackStatus::Other(name) => name.as_str(),
        }
    }

    /// A copy of the status.
    pub fn duplicate(&self) -> (copy: StackStatus)
        ensures
            copy == *self,
    {
        match self {
            StackStatus::CreateComplete => StackStatus::CreateComplete,
            StackStatus::CreateFailed => StackStatus::CreateFailed,
            StackStatus::CreateInProgress => StackStatus::CreateInProgress,
            StackStatus::DeleteComplete => StackStatus::DeleteComplete,
            StackStatus::DeleteFailed => StackStatus::DeleteFailed,
            StackStatus::DeleteInProgress => StackStatus::DeleteInProgress,
            StackStatus::ImportComplete => StackStatus::ImportComplete,
            StackStatus::ImportInProgress => StackStatus::ImportInProgress,
            StackStatus::ImportRollbackComplete => StackStatus::ImportRollbackComplete,
            StackStatus::ImportRollbackFailed => StackStatus::ImportRollbackFailed,
            StackStatus::ImportRollbackInProgress => StackStatus::ImportRollbackInProgress,
            StackStatus::ReviewInProgress => StackStatus::ReviewInProgress,
            StackStatus::RollbackComplete => StackStatus::RollbackComplete,
            StackStatus::RollbackFailed => StackStatus::RollbackFailed,
            StackStatus::RollbackInProgress => StackStatus::RollbackInProgress,
            StackStatus::UpdateComplete => StackStatus::UpdateComplete,
            StackStatus::UpdateCompleteCleanupInProgress => StackStatus::UpdateCompleteCleanupInProgress,
            StackStatus::UpdateFailed => StackStatus::UpdateFailed,
            StackStatus::UpdateInProgress => StackStatus::UpdateInProgress,
            StackStatus::UpdateRollbackComplete => StackStatus::UpdateRollbackComplete,
            StackStatus::UpdateRollbackCompleteCleanupInProgress => StackStatus::UpdateRollbackCompleteCleanupInProgress,
            StackStatus::UpdateRollbackFailed => StackStatus::UpdateRollbackFailed,
            StackStatus::UpdateRollbackInProgress => StackStatus::UpdateRollbackInProgress,
            StackStatus::Other(name) => StackStatus::Other(name.clone()),
        }
    }
}

/// Every status but `DeleteComplete`: what is listed when no status was asked for.
pub open spec fn default_statuses() -> Seq<StackStatus> {
    seq![
        StackStatus::CreateComplete,
        StackStatus::CreateFailed,
        StackStatus::CreateInProgress,
        StackStatus::DeleteFailed,
        StackStatus::DeleteInProgress,
        StackStatus::ImportComplete,
        StackStatus::ImportInProgress,
        StackStatus::ImportRollbackComplete,
        StackStatus::ImportRollbackFailed,
        StackStatus::ImportRollbackInProgress,
        StackStatus::ReviewInProgress,
        StackStatus::RollbackComplete,
        StackStatus::RollbackFailed,
        StackStatus::RollbackInProgress,
        StackStatus::UpdateComplete,
        StackStatus::UpdateCompleteCleanupInProgress,
        StackStatus::UpdateFailed,
        StackStatus::UpdateInProgress,
        StackStatus::UpdateRollbackComplete,
        StackStatus::UpdateRollbackCompleteCleanupInProgress,
        StackStatus::UpdateRollbackFailed,
        StackStatus::UpdateRollbackInProgress,
    ]
}

/// Whether one of the statuses is the word `all`.
pub open spec fn asks_for_all(status: Seq<StackStatus>) -> bool {
    exists|i: int| 0 <= i < status.len() && (#[trigger] status[i]).means_all()
}

/// The statuses to list by: the defaults where none was given, no restriction
/// at all (the empty list) where `all` was asked for, else the statuses given.
pub open spec fn adjusted(status: Seq<StackStatus>, all: bool) -> Seq<StackStatus> {
    if status.len() == 0 {
        default_statuses()
    } else if all {
        Seq::empty()
    } else {
        status
    }
}

/// Whether a lowercased status name is the word `all`.
pub fn is_all(lowered: &str) -> (r: bool)
    ensures
        r == (lowered@ == "all"@),
{
    same_text(lowered, "all")
}

/// The statuses to list by, given whether `all` was asked for.
pub fn adjust_statuses_given(status: Vec<StackStatus>, all: bool) -> (r: Vec<StackStatus>)
    ensures
        r@ == adjusted(status@, all),
{
    if status.len() == 0 {
        let r = vec![
            StackStatus::CreateComplete,
            StackStatus::CreateFailed,
            StackStatus::CreateInProgress,
            StackStatus::DeleteFailed,
            StackStatus::DeleteInProgress,
            StackStatus::ImportComplete,
            StackStatus::ImportInProgress,
            StackStatus::ImportRollbackComplete,
            StackStatus::ImportRollbackFailed,
            StackStatus::ImportRollbackInProgress,
            StackStatus::ReviewInProgress,
            StackStatus::RollbackComplete,
            StackStatus::RollbackFailed,
            StackStatus::RollbackInProgress,
            StackStatus::UpdateComplete,
            StackStatus::UpdateCompleteCleanupInProgress,
            StackStatus::UpdateFailed,
            StackStatus::UpdateInProgress,
            StackStatus::UpdateRollbackComplete,
            StackStatus::UpdateRollbackCompleteCleanupInProgress,
            StackStatus::UpdateRollbackFailed,
            StackStatus::UpdateRollbackInProgress,
        ];
        assert(r@ =~= default_statuses());
        r
    } else if all {
        Vec::new()
    } else {
        status
    }
}

/// Whether one of the statuses is the word `all`, in any mix of upper and lower case.
pub fn any_means_all(status: &Vec<StackStatus>) -> (r: bool)
    ensures
        r == asks_for_all(status@),
{
    let mut i: usize = 0;
    while i < status.len()
        invariant
            i <= status.len(),
            forall|j: int| 0 <= j < i ==> !(#[trigger] status@[j]).means_all(),
        decreases status.len() - i,
    {
        let lowered = to_lowercase(status[i].as_str());
        if is_all(lowered.as_str()) {
            assert(status@[i as int].means_all());
            return true;
        }
        i += 1;
    }
    false
}

/// The statuses to list stacks by. With no status given, every status but
/// `DeleteComplete`; with `all` among them, no restriction at all, which is
/// the empty list; else the statuses as given.
pub fn adjust_stack_statuses(status: Vec<StackStatus>) -> (r: Vec<StackStatus>)
    ensures
        r@ == adjusted(status@, asks_for_all(status@)),
{
    let all = any_means_all(&status);
    adjust_statuses_given(status, all)
}

} // verus!
