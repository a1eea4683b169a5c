//! Decisions behind CPU mining on machines with more than one processor group.

pub mod command_laws;
pub mod groups;
pub mod instance;
pub mod launch;
pub mod launch_laws;
pub mod manager;
pub mod shutdown;
pub mod status;
pub mod status_laws;
pub mod termination;
pub mod termination_laws;
pub mod text;
pub mod threads;
