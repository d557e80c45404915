//! A small layered "create user" service: validated value objects, a user
//! entity, a storage-agnostic repository interface with upsert semantics, the
//! create-user use case and the transport boundary that maps errors to
//! status codes.

pub mod error;
pub mod name;
pub mod id;
pub mod user;
pub mod repository;
pub mod usecase;
pub mod handler;
pub mod memory;
