//! Core of a persistent, multi-worker HTTP download manager: the job model,
//! the single-writer job store, the download worker and cancellation
//! protocols, and the manager's request handling.
pub mod err;
pub mod types;
pub mod store;
pub mod text;
pub mod worker;
pub mod jobs;
pub mod registry;
pub mod naming;
pub mod manager;
pub mod api;
