//! A multiple-choice quiz: the question model, the question bank, the
//! menu/game screen controller and the text helpers they rest on.
//!
//! Every function here carries a contract. Verus proves them all but two,
//! which stand for calls it cannot see into and are marked as such:
//! `char::is_whitespace` in `text` and the random generator in `chance`.
//! Drawing, keyboard polling and file access belong to the program around
//! this library, which hands plain values in and takes plain values back.

pub mod bank;
mod chance;
pub mod config;
pub mod model;
pub mod screen;
pub mod text;
