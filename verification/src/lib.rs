//! Startup and shutdown rules of the Clovis desktop shell.
//!
//! The shell opens a window, starts a bundled backend server on a local port,
//! tells each loaded page where that server listens, and stops the server when
//! the application exits. This crate holds the rules of that arrangement as
//! plain functions with proved contracts; the program around it performs the
//! socket, process and window operations.

pub mod decimal;
pub mod endpoint;
pub mod failure;
pub mod launch;
pub mod platform;
pub mod supervisor;
