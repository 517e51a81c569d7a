//! State of the terminal interface and what each input event does to it.

pub mod app;
pub mod event;
pub mod manual;
pub mod states;
pub mod writer;
