//! The decision logic of a tray-icon application shell.
//!
//! The shell keeps a record of three flags, derives the tray menu from it,
//! and answers menu and tray-icon events with the steps that the window
//! surface has to carry out. Nothing here touches a window: every function
//! maps plain values to plain values.

pub mod state;
pub mod text;
pub mod menu;
pub mod tray;
pub mod sys_tray;
pub mod events;
