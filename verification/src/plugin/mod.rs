//! Plugins: how a node of each kind is run.

pub mod approval;
pub mod container;
pub mod contextrewrite;
pub mod forkjoin;
pub mod http;
pub mod ifcondition;
pub mod interface;
pub mod llm;
pub mod parallel;
pub mod pause;
pub mod rhai_engine;
pub mod subworkflow;
