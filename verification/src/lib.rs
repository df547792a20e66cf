//! A screen-selection dispatcher for a frame-driven user interface.
//!
//! The library owns a small fixed set of screens (Home, Chat, Settings),
//! tracks which one is currently active, and forwards one update call per
//! frame to the active screen, which may request a switch to another screen.

pub mod screen_manager;
