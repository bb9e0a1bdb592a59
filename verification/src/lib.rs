//! Editing core of a modal terminal chat client.
//!
//! The client shows a history of messages and an input line. Keys are read
//! in one of three modes, as in a modal editor: normal mode moves, deletes,
//! selects, yanks and pastes; insert mode types; visual mode waits for
//! escape. Submitting hands the input line to the host, which talks to the
//! chat backend and appends what was said to the history.
//!
//! The library is the part that decides: given the state and a key, what
//! the state is afterwards and whether anything is to be sent. It reads no
//! terminal and opens no connection.
//!
//! - [`text_buffer`]: the input line and its cursor
//! - [`clipboard`]: the yank buffer
//! - [`history`]: the messages and the selection among them
//! - [`mode`]: modes, keys, and what a key asks of the host
//! - [`app_state`]: the editor and its key bindings
//! - [`dispatcher`]: the entry point for events
//! - [`display`]: screen division, line wrapping, help lines
//! - [`config`]: API key and model
//! - [`request`]: the text of a request to the backend
//! - [`string_specs`]: what is taken on trust of the standard library

pub mod app_state;
pub mod clipboard;
pub mod config;
pub mod dispatcher;
pub mod display;
pub mod history;
pub mod mode;
pub mod request;
pub mod string_specs;
pub mod text_buffer;
