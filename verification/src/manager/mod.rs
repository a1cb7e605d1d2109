//! The manager: drives workflow instances from event to event. Storage and queues are the
//! caller's; the manager says what is to be written and sent, and takes what was read.

pub mod after_save;
pub mod apply_exec;
pub mod ensure_task_job;
pub mod executor;
pub mod job;
pub mod llm_request;
pub mod node;
pub mod rollback;
pub mod workflow;
