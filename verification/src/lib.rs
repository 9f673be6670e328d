//! Decision logic behind the window commands of a desktop shell.
//!
//! The front end of the shell may ask for two things to happen to the window it
//! runs in: that it be closed, or that it be minimized. The windowing system
//! carries the request out and says whether it could; this crate decides what
//! the front end is told. A request that went through yields no value, and one
//! that did not is reported back as a failure that names the command and
//! carries the reason, so that no outcome of a window request can bring the
//! host process down.
//!
//! Nothing here touches a window. The host performs the request and hands its
//! outcome to [`WindowCommand::reply`].

pub mod command;
pub mod failure;

pub use command::WindowCommand;
pub use failure::{CommandFailure, FailureView};
