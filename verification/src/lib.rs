//! Task management from the terminal: the screens of the interface, the
//! navigation between them, and the records they show.

pub mod actions;
pub mod app;
pub mod config;
pub mod db;
pub mod error;
pub mod handler;
pub mod keybindings;
pub mod states;
pub mod ui;
