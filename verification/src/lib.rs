//! Core of a small desktop power menu: a window of buttons (exit the
//! session, power off, reboot, and up to three custom actions) that runs
//! a configured shell command when one is chosen.
//!
//! This crate holds the verified logic: resolving the configuration from
//! environment values, tokenizing command strings with shell-word rules,
//! deriving the stylesheet path, selecting what the menu renders, and
//! deciding what an invocation's arguments ask for.  The windowing
//! toolkit, process spawning and the reading of the process environment
//! live outside it, in the front end built on top.

pub mod actions;
pub mod cli;
pub mod config;
pub mod shell;
pub mod ui;
