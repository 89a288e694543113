//! The home page of the workspace.
pub mod activity;
pub mod clipboard;
pub mod dock;
