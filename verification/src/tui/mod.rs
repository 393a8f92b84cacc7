//! The interactive terminal UI: its state, what each key does to it, and
//! the texts it shows. Drawing and the terminal itself live with the
//! program.
pub mod app;
pub mod event;
pub mod view;
