//! The network page: direct seeds, pending requests and live sessions.
pub mod page;
pub mod state;
pub mod panels;
pub mod actions;
