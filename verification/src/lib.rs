//! An edge-triggered input pipeline over mouse, keyboard and gamepad.
//!
//! The caller samples the raw devices once per tick and hands the sample to
//! [`monitor::UserInputMonitor`], which answers with the events of that
//! tick: presses and releases of keys and buttons, moves of the pointer,
//! and which class of device was active. Gamepads are understood through
//! the controller database, whose lines [`gamepad::GamePad`] decodes into
//! named controls; [`notifier::Notifier`] keeps the order and liveness of
//! the callbacks that the events go to.

pub mod controls;
pub mod events;
pub mod gamepad;
pub mod guid;
pub mod kinds;
pub mod mapping;
pub mod models;
pub mod monitor;
pub mod notifier;
pub mod pressed;
pub mod sampler;
pub mod seqs;
pub mod state_map;
pub mod text;
pub mod view_models;
pub mod views;
