//! The terminal interface: its state machine, key bindings, languages and
//! the layout arithmetic of its views.

pub mod i18n;
pub mod app;
pub mod event;
pub mod view;
