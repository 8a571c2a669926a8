//! Backup and restore wizard: the data model, the wizard state machine, the
//! command plans handed to the external backup program, and the parsers of
//! what that program prints.

pub mod archives;
pub mod backend;
pub mod config;
pub mod dispatch;
pub mod format;
pub mod listing;
pub mod screens;
pub mod security;
pub mod state;
pub mod text;
pub mod types;
pub mod widgets;
