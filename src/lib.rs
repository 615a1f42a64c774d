//! A terminal task manager's core: the task entity with guarded status
//! transitions, a repository abstraction with an in-memory store and the
//! snapshot logic of a file-backed store, and the use-case services.

pub mod cli;
pub mod errors;
pub mod in_memory;
pub mod json_file;
pub mod laws;
pub mod repository;
pub mod services;
pub mod task;
pub mod tasks_file;
