//! A command-line front end for a remote cryptographic service.
//!
//! The crate models the tool's typed dispatch mechanism: a subcommand turns
//! its parameters into an operation value, the operation is carried to a
//! provider together with an authentication credential, and the polymorphic
//! result that comes back is matched against the one variant the subcommand
//! expects before anything is rendered.

pub mod auth;
pub mod common;
pub mod error;
pub mod list_opcodes;
pub mod operation;
pub mod provider;
pub mod render;
pub mod subcommand;
