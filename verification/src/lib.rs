//! The menu of a game, as a state machine that a host window drives.
//!
//! The application is in one of two modes, the menu or the game. In the menu
//! a second machine runs, which shows one of three screens: the main screen,
//! the choice of a difficulty, and the load screen. The host reports what
//! the user does to the buttons of the current screen; the library decides
//! what follows, keeps the settings, and keeps a registry of the elements
//! that are live, so that every element of a screen is gone the moment its
//! state is left.
//!
//! - [`interaction`]: what the host reports, and how buttons are highlighted
//! - [`settings`]: the setting store and the protocol to select a value
//! - [`screen`]: the registry of the live elements
//! - [`menu`]: the states of the menu, its transitions and its screens
//! - [`application`]: the two modes, and the application as a whole

pub mod application;
pub mod interaction;
pub mod menu;
pub mod screen;
pub mod settings;
