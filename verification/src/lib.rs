//! Hierarchical access resolution for a multi-tenant project/task backend.
//!
//! Users belong to companies, companies own projects, projects own tasks,
//! tasks own subtasks, and notes may attach to any level of that hierarchy.
//! Every operation is gated by an authorization decision: the resolver
//! combines company-wide memberships, resource-scoped grants and note
//! authorship into the caller's best (lowest-numbered) role level, and the
//! gate compares that level against an operation-specific threshold.
//!
//! The engine is a pure library over in-memory state; reading that state from
//! and writing it back to a persistent store, as well as transport and token
//! handling, belong to the surrounding application.

pub mod chars;
pub mod claims;
pub mod errors;
pub mod find;
pub mod gate;
pub mod hierarchy;
pub mod model;
pub mod mutation;
pub mod queries;
pub mod resolver;
pub mod roles;
pub mod services;
pub mod users;
pub mod validators;
