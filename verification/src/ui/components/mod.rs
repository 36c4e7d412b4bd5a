//! Reusable widgets.

pub mod text_input;
