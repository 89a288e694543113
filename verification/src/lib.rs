//! Verified state and decision logic of the nooboard desktop client: the
//! configuration chooser, the workspace pages (home, clipboard, network,
//! settings) and the bundled icon table.
pub mod assets;
pub mod bootstrap;
pub mod cli;
pub mod clipboard;
pub mod home;
pub mod ids;
pub mod network;
pub mod settings;
pub mod text;
