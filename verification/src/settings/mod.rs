//! The settings page: section drafts, storage units, and the checks made
//! before a section is saved.
pub mod derived;
pub mod state;
pub mod storage;
pub mod panels;
pub mod actions;
