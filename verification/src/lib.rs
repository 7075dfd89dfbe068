//! Lifecycle rules of a window-bound presentation surface: how its
//! configuration is negotiated, when it is pushed again, and how the
//! application reacts to window events and to failed frames.

pub mod controller;
pub mod failure;
pub mod format;
pub mod surface;
