//! What the terminal front end decides: which key means what, and what text
//! each part of the screen shows. Drawing itself is done around the library.
pub mod keymap;
pub mod view;
