//! Voting for packages of the Arch User Repository on behalf of a user: the
//! session with the site, what its pages say, and what the commands print.
//!
//! The library reads and decides; it neither sends a request nor touches a
//! file. Where an operation needs the site or the disk, it hands the caller
//! a step to perform and takes what came of it.

pub mod args;
pub mod aur;
pub mod cmds;
pub mod config;
pub mod cookies;
pub mod decimal;
pub mod helper;
pub mod html;
pub mod http;
pub mod info;
pub mod paint;
pub mod runs;
pub mod text;
