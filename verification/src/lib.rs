//! Orchestration layer for per-agent virtual filesystem instances.
//!
//! Each agent owns a stable identity backed by a persistent store; the
//! library validates identities, derives storage paths, plans instance
//! creation and forced re-creation, parses bind-mount specifications,
//! plans sandboxed execution and FUSE mounts, and classifies read-only
//! filesystem queries.  The storage engine and the FUSE driver are
//! external collaborators: this crate decides, they perform.

pub mod cli;
pub mod errors;
pub mod fsquery;
pub mod fuse;
pub mod identity;
pub mod lifecycle;
pub mod mount_spec;
pub mod sandbox;
pub mod text;

pub use errors::ErrorKind;
pub use identity::validate;
