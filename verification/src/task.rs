use vstd::prelude::*;

verus! {

/// Identifier of a schedulable task (thread).
#[derive(Debug, Clone, Copy, PartialEq, Eq, Structural)]
pub struct TaskId(pub usize);

/// Identifier of a process.
#[derive(Debug, Clone, Copy, PartialEq, Eq, Structural)]
pub struct ProcessId(pub usize);

} // verus!
