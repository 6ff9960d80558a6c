//! A command-line client's library for searching a mod repository, choosing
//! among the hits and fetching their files.

pub mod api;
pub mod args;
pub mod client;
pub mod commands;
pub mod config;
pub mod error;
pub mod fetch;
pub mod hopfile;
pub mod selection;
pub mod text;
