//! Path brokerage between an audio plugin and the host that runs it.
//!
//! The host owns the file system policy. It hands the plugin three
//! capabilities, each a handle with entry points: one makes absolute paths
//! for scratch files, one maps absolute paths to abstract identifiers that
//! survive in saved state (and back), one takes back what the other two
//! handed out.
//!
//! This crate holds every decision of that exchange and none of its foreign
//! calls. An operation first yields the call that is to be made, or the error
//! that forbids it; the embedding code performs the call; a second operation
//! turns what the host answered into a managed value that is released
//! exactly once. Handles, entry points and pointers are type parameters:
//! the crate passes them on and never looks inside.
pub mod encoding;
pub mod error;
pub mod feature;
pub mod managed;
pub mod manager;
pub mod platform;

pub use error::PathError;
pub use feature::{
    FreeCall, FreePath, FreePathTable, HostCall, MakePath, MakePathTable, MapPath, MapPathTable,
};
pub use managed::{HostString, ManagedPath, ManagedStr};
pub use manager::PathManager;
