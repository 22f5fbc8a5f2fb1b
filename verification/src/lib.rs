use vstd::prelude::*;

pub mod bindings;
pub mod due_batch;
pub mod event_families;
pub mod event_log;
pub mod invocation_list;
pub mod listing;
pub mod messages;
pub mod occurrence_stream;
pub mod replay;
pub mod run_list;
pub mod runtime;
pub mod schedule_list;
pub mod scheduler;
pub mod session;
pub mod skill;
pub mod task;
pub mod task_list;
pub mod text;
pub mod tool;
pub mod workflow;

verus! {

} // verus!
