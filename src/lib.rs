//! Persistence and validation core of a desktop assistant's local data root:
//! LLM provider configuration, guide and knowledge documents, and action
//! bundles with their health status.

pub mod actions;
pub mod agent;
pub mod bootstrap;
pub mod config;
pub mod copy_tree;
pub mod effects;
pub mod entity_store;
pub mod error;
pub mod json;
pub mod path_guard;
pub mod permissions;
pub mod schema;
pub mod sources;
pub mod text;
pub mod threads;
