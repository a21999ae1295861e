//! The decisions of a tray-resident desktop shell: one window that is shown
//! and hidden from a tray icon and its menu, and that hides instead of closing.
//!
//! Nothing here touches a windowing toolkit. The shell is a state machine over
//! a model of the window: an [`event::Event`] goes in, the next
//! [`controller::Lifecycle`] and the calls the host has to make come out.

pub mod controller;
pub mod event;
pub mod host;
pub mod trace;
pub mod window;
