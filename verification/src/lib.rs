//! Verified core of a terminal-workspace opener.
//!
//! A *preset* describes a workspace: how many terminal tabs to open, how many
//! panes each tab holds, and the command each pane runs.  This crate holds the
//! three pieces that carry the real logic, each with a proved contract:
//!
//! * the preset model and its field-edit engine, which keeps the nested
//!   tab/pane/argument collections consistent through every resize;
//! * the layout compiler, which turns a preset into the exact command line
//!   that recreates the layout in the Windows Terminal multiplexer;
//! * the inline text editor used to author the values stored in a preset.
//!
//! Terminal rendering, key handling, clipboard exchange and config-file
//! persistence are left to the surrounding (unverified) application, which
//! talks to this crate through plain values.

pub mod compile;
pub mod config;
pub mod editor;
pub mod menu;
pub mod model;
pub mod shell;
pub mod text;
