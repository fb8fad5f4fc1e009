//! Task catalogue, safety journal and execution planning for a Windows
//! maintenance utility, with the decisions proved against their contracts.

pub mod text;
pub mod scripts;
pub mod clock;
pub mod task_registry;
pub mod safety;
pub mod snapshot;
pub mod engine;
pub mod laws;
