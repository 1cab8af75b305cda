//! Verified core of a personal task-management backend.
//!
//! The crate covers the logic of the service: password credentials,
//! signed session tokens, request authentication, and the todo / subtask /
//! tag services with their one multi-row atomic operation (subtask
//! reordering). Storage rows are modelled as in-memory tables; timestamps
//! and due dates are seconds since the Unix epoch, supplied by the caller.
//! Transport, persistence and clock access live outside this crate.

pub mod error;
pub mod handlers;
pub mod jwt;
pub mod password;
pub mod subtask;
pub mod subtask_service;
pub mod tag;
pub mod tag_service;
pub mod text;
pub mod todo;
pub mod todo_service;
pub mod user;
pub mod user_service;
