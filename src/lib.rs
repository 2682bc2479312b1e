//! Shell prompt segments for the working directory and its git repository:
//! repository classification, escape-code transcoders for zsh and Windows
//! terminals, and the prompt texts built from them.

pub mod args;
pub mod command;
pub mod compat;
pub mod direnv;
pub mod git;
pub mod path;
pub mod text;
