//! Control-plane logic for container stacks deployed across remote hosts:
//! permission checks, per-resource action flags, compose command
//! construction, the update log, and the status cache.

pub mod action_state;
pub mod alert;
pub mod cache;
pub mod command;
pub mod coordinator;
pub mod error;
pub mod execute;
pub mod permission;
pub mod pipeline;
pub mod read;
pub mod recent;
pub mod registry;
pub mod repo;
pub mod stack;
pub mod summary;
pub mod text;
pub mod update;
pub mod webhook;
