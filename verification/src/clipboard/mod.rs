//! The clipboard page: committed history window, detail cache, editor,
//! broadcast targets and the page view model.
pub mod model;
pub mod history;
pub mod editor;
pub mod targets;
pub mod page;
pub mod view_state;
pub mod time_label;
pub mod panels;
pub mod actions;
