//! The configuration chooser shown before the workspace opens.
pub mod controller;
pub mod state;
pub mod view_state;
pub mod layout;
