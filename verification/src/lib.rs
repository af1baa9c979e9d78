//! Editing engine of a daily todo list.
//!
//! - [`model`]: the item and the dated list of items.
//! - [`date`]: calendar dates, printed and read by `chrono`.
//! - [`markdown`]: the file format, with its laws in [`markdown_laws`].
//! - [`edit`]: the edit buffer, a text with a cursor that counts characters.
//! - [`wrap`]: word wrapping for a viewport of fixed width, with its laws
//!   in [`wrap_laws`].
//! - [`todo_app`]: the editing operations on a list.
//! - [`state`]: the state machine of selection, edit and delete modes.
//! - [`display`]: what a front-end shows of a session.
//! - [`store`]: which file a session starts from and what it saves.
//! - [`chars`]: text as sequences of characters.
//!
//! The crate decides and computes; it reads no key, paints nothing and
//! touches no file. Every function is verified against its contract. What
//! is trusted and not proved are the contracts of the two calls into
//! `chrono` in [`date`] and that of `String::push` in [`chars`].

pub mod chars;
pub mod date;
pub mod display;
pub mod edit;
pub mod markdown;
pub mod markdown_laws;
pub mod model;
pub mod state;
pub mod store;
pub mod todo_app;
pub mod wrap;
pub mod wrap_laws;
