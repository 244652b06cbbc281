//! An interactive command-line builder for terminals: a stack of modal
//! screens, the transition protocol between them, the clock that paces input
//! and ticks, and the token editing model behind the main screen.

pub mod opencli;
pub mod token;
pub mod action;
pub mod event;
pub mod clock;
pub mod screen;
pub mod app;
pub mod builder;
pub mod screens;
pub mod text;
pub mod usage;
pub mod picker;
pub mod config;
