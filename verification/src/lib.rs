//! An interactive shell emulation over a generic terminal surface.
//!
//! The crate owns the algorithmic heart of such a shell: a line-editing
//! engine whose cursor stays consistent with the edited text even when the
//! line wraps across terminal rows, a bash-like command history with a
//! one-slot draft cache, and dispatch of a completed line to a registered
//! command. Actual terminal painting is left to the caller: every editing
//! operation returns the semantic paint instructions ([`paint::PaintOp`])
//! that bring the display in sync with the new state.

pub mod commands;
pub mod editor;
pub mod history;
pub mod layout;
pub mod line_buffer;
pub mod paint;
pub mod session;
pub mod tabs;
pub mod text;
