//! Reconciles a desired network configuration against the live state of a
//! connection-management backend: which profiles to delete, which live
//! connections to take down before a profile is rewritten, and in what order
//! the backend is driven.
pub mod text;
pub mod profile;
pub mod policy;
pub mod state;
pub mod cascade;
pub mod orchestrator;
