//! The rescue window's state and the decisions behind it; drawing is left to
//! the program around the library.

pub mod app;
pub mod display;
pub mod laws;
pub mod step;
