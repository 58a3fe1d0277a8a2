//! The sections of a bar.

pub mod clock;
pub mod sysmon;
pub mod workspaces;

pub use workspaces::Workspaces;
