//! The policy of a command that keeps a persistent Tart macOS VM.
//!
//! The library decides; it does nothing itself. A command is a procedure on a
//! [`session`]: it reads the replies of the host and asks for more until it is
//! done. Each procedure has a specification of the same name, a function from the
//! replies to what the procedure does next, and is proved to follow it.
//!
//! [`footprint`] and [`conduct`] say what each command can ever ask for;
//! [`laws`], [`isolation`], [`settings`] and [`replay`] state what holds of all of
//! them.

pub mod agent;
pub mod app;
pub mod cli;
pub mod command;
pub mod conduct;
pub mod config;
pub mod console;
pub mod encoding;
pub mod error;
pub mod facts;
pub mod files;
pub mod footprint;
pub mod headless;
pub mod host;
pub mod install;
pub mod install_state;
pub mod instance;
pub mod isolation;
pub mod keychain;
pub mod laws;
pub mod lifecycle;
pub mod machine;
pub mod names;
pub mod options;
pub mod password;
pub mod path;
pub mod process;
pub mod promises;
pub mod remote;
pub mod replay;
pub mod service;
pub mod session;
pub mod settings;
pub mod tailscale;
pub mod text;
pub mod unlock;
pub mod vm;
pub mod volume;
