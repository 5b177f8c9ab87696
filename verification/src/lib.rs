//! Interactive manager for git worktrees that are mapped one-to-one to
//! branches under a configured workspace directory.
//!
//! This crate holds the verified core: the single-line text editor, the
//! cyclic main menu, the worktree-list parser and branch-synchronization
//! decision, the config document codec, and the screen state machine.
//! Terminal drawing, process invocation and file access live outside the
//! crate and exchange plain values with it.

pub mod config;
pub mod editor;
pub mod gateway;
pub mod menu;
pub mod state;
pub mod strutil;
