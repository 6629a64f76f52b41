//! What the screens are made of: key events, widgets, and the screens
//! themselves.

pub mod event;
pub mod screens;
pub mod widgets;
