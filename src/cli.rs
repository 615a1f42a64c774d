//! The command-line vocabulary that the library understands: output formats
//! and the status filter of the `list` command.

use crate::services::FilterTask;
use vstd::prelude::*;

verus! {

#[derive(Debug, Clone, Copy, PartialEq, Eq, Structural)]
pub enum OutputFormat {
    Table,
    Json,
}

#[derive(Debug, Clone, Copy, PartialEq, Eq, Structural)]
pub enum StatusArg {
    All,
    Todo,
    Done,
}

/// The list filter that a status argument names.
pub open spec fn filter_of(command: StatusArg) -> FilterTask {
    match command {
        StatusArg::All => FilterTask::All,
        StatusArg::Todo => FilterTask::Todo,
        StatusArg::Done => FilterTask::Done,
    }
}

pub fn status_command_to_filter_task(command: StatusArg) -> (r: FilterTask)
    ensures
        r == filter_of(command),
{
    match command {
        StatusArg::All => FilterTask::All,
        StatusArg::Todo => FilterTask::Todo,
        StatusArg::Done => FilterTask::Done,
    }
}

} // verus!
