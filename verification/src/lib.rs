//! Session orchestration for an interactive analytical-shell terminal.
//!
//! The library is the decision core of a shell that sits between a
//! character terminal and an embedded query engine reached through an
//! asynchronous binding.  It routes normalized key events into line
//! edits, meta-commands and query submissions, enforces that at most one
//! foreground operation runs at a time, discards stale background
//! highlight results by a generation counter, and keeps a bounded
//! history of submitted lines.
//!
//! All engine and terminal I/O happens outside the library: the
//! asynchronous steps of the session are split into
//! `*_start` functions that decide and `*_finish` functions that take
//! the outside result as a plain value.  A driver performs the calls in
//! between and reflects the [`terminal::Terminal`] model onto a real
//! device.

pub mod buffer;
pub mod history;
pub mod keys;
pub mod shell;
pub mod terminal;
pub mod text;
