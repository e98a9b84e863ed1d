//! An interactive list editor, as a verified library.
//!
//! The editor keeps an ordered list of text elements and is driven one input
//! line at a time: each line is either a single-character command or the
//! answer to a question the previous command asked. The library decides what
//! every line does to the list and what is shown in response; reading lines,
//! printing and clearing the terminal are left to the caller.
pub mod input_manager;
pub mod paint;
pub mod text;
