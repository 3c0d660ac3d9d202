//! The logic of easy-proxy: a command line and a daemon that reach a company network through an
//! EasyConnect gateway and offer it as a local proxy.
//!
//! Apart from the clock and the home directory nothing here looks outside: no file is read, no
//! connection opened, no program started. What has to be done there is written as steps from
//! what has happened to what is to be done next: `supervisor` for the daemon, `connect` and
//! `cli` for the commands, `login` and `sms` for the portal and its codes.
//! The remaining modules hold what these steps compute: command lines, messages, the capsule of
//! the prompt, the files that are installed. `outside` holds the calls into other crates.

pub mod capsule;
pub mod cli;
pub mod config;
pub mod connect;
pub mod daemon;
pub mod decimal;
pub mod install;
pub mod keychain;
pub mod login;
mod outside;
pub mod recover;
pub mod sms;
pub mod supervisor;
pub mod text;
pub mod tun;
pub mod tunnel;
pub mod words;
