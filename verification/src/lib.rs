//! A workflow engine: instances made of nodes, tasks dispatched to workers, containers that fan
//! out over children, and the rules that move all of them from state to state.

pub mod account;
pub mod api_error;
pub mod approval;
pub mod auth;
pub mod bootstrap;
pub mod cipher;
pub mod codec;
pub mod config;
pub mod entity;
pub mod executors;
pub mod ids;
pub mod indexes;
pub mod json;
pub mod manager;
pub mod mcp;
pub mod notification;
pub mod notification_store;
pub mod plugin;
pub mod query;
pub mod shared;
pub mod store;
pub mod subscription;
pub mod sweeper;
pub mod task_job;
pub mod task_transition;
pub mod template;
pub mod text;
pub mod time;
pub mod usecase;
pub mod user;
pub mod variable;
pub mod workflow_transition;
