//! Decision core of a driver that runs the `fzy` picker in a new `tmux` pane.
//!
//! The driver talks to the picker through three named pipes in a private
//! directory: its own input goes to the picker, the picker's output comes back,
//! and the picker's exit status becomes the driver's. Everything the driver
//! decides is computed here, on plain values, and stated in contracts; a thin
//! program around this crate touches the environment, the file system and the
//! processes.
//!
//! - [`session`]: the session token that is forwarded to the multiplexer.
//! - [`rendezvous`]: the three pipes and their directory.
//! - [`launcher`]: the command that runs in the pane and the invocation that opens it.
//! - [`exit_status`]: decoding what the pane reports when the picker has ended.
//! - [`error`]: the failures and their messages.
//! - [`driver`]: the state machine that ties these together.

pub mod driver;
pub mod error;
pub mod exit_status;
pub mod launcher;
pub mod rendezvous;
pub mod session;
